//! Calls of any method of the Bot API, with the parameters as Telegram names
//! them.
use crate::api::request;
use crate::api::request::{Request, RequestView};
use crate::document;
use crate::document::encode;
use crate::error;
use crate::error::{message, Error, ErrorView};
use crate::json;
use crate::json::{strip_members, Fields, Json, JsonView};
use crate::native;
use crate::native::quote;
use crate::text;
use crate::text::{joined, same};
use vstd::prelude::*;

verus! {

// ---------------------------------------------------------------------------
// Values in forms
// ---------------------------------------------------------------------------

/// How a value stands in a form: a text as it is, another value as JSON.
pub open spec fn form_text(value: JsonView) -> Result<Seq<char>, ErrorView> {
    match value {
        JsonView::Text(text) => Ok(text),
        JsonView::Null => error::refused("null multipart parameters must be omitted"@),
        _ => match document::holdable(value) {
            Some(held) => Ok(document::json_text(held)),
            None => error::refused("failed to encode multipart parameter"@),
        },
    }
}

/// How a value stands in a form: a text as it is, another value as JSON.
pub fn platform_form_value(value: &Json) -> (result: Result<String, Error>)
    ensures
        error::shown(result) == form_text(value@),
{
    broadcast use json::lemma_json_view;

    match value {
        Json::Text(text) => Ok(text.clone()),
        Json::Null => Err(message("null multipart parameters must be omitted")),
        other => match encode(other) {
            Some(text) => Ok(text),
            None => Err(message("failed to encode multipart parameter")),
        },
    }
}

// ---------------------------------------------------------------------------
// Calls
// ---------------------------------------------------------------------------

/// A form for a call with files: the values that are in it, and the names that
/// its fields have.
#[derive(Debug, PartialEq)]
pub struct PlatformForm {
    method: String,
    values: Vec<(String, String)>,
    fields: Vec<String>,
}

/// What is in a form.
#[verifier::ext_equal]
pub struct PlatformFormView {
    pub method: Seq<char>,
    pub values: Seq<(Seq<char>, Seq<char>)>,
    /// The names of the fields, in the order in which they came.
    pub fields: Seq<Seq<char>>,
}

/// Names with their values.
pub open spec fn pairs(values: Seq<(String, String)>) -> Seq<(Seq<char>, Seq<char>)> {
    Seq::new(values.len(), |i: int| (values[i].0@, values[i].1@))
}

/// A list of names.
pub open spec fn listed(names: Seq<String>) -> Seq<Seq<char>> {
    Seq::new(names.len(), |i: int| names[i]@)
}

/// No name stands twice, and none is empty.
pub open spec fn proper(names: Seq<Seq<char>>) -> bool {
    &&& names.no_duplicates()
    &&& forall|i: int| 0 <= i < names.len() ==> (#[trigger] names[i]).len() > 0
}

impl View for PlatformForm {
    type V = PlatformFormView;

    closed spec fn view(&self) -> PlatformFormView {
        PlatformFormView {
            method: self.method@,
            values: pairs(self.values@),
            fields: listed(self.fields@),
        }
    }
}

/// The first `n` parameters as they stand in a form, in the order of their
/// names.
pub open spec fn form_values(map: Map<Seq<char>, JsonView>, keys: Seq<Seq<char>>, n: int) -> Result<
    Seq<(Seq<char>, Seq<char>)>,
    ErrorView,
>
    decreases n,
{
    if n <= 0 {
        Ok(Seq::empty())
    } else {
        match form_values(map, keys, n - 1) {
            Err(e) => Err(e),
            Ok(values) => if keys[n - 1].len() == 0 {
                error::refused("platform API multipart parameter name cannot be empty"@)
            } else {
                match form_text(map[keys[n - 1]]) {
                    Err(e) => Err(e),
                    Ok(text) => Ok(values.push((keys[n - 1], text))),
                }
            },
        }
    }
}

proof fn lemma_values_refused(
    map: Map<Seq<char>, JsonView>,
    keys: Seq<Seq<char>>,
    n: int,
    m: int,
    e: ErrorView,
)
    requires
        0 <= n <= m,
        form_values(map, keys, n) == Err::<Seq<(Seq<char>, Seq<char>)>, ErrorView>(e),
    ensures
        form_values(map, keys, m) == Err::<Seq<(Seq<char>, Seq<char>)>, ErrorView>(e),
    decreases m - n,
{
    if n < m {
        lemma_values_refused(map, keys, n, m - 1, e);
    }
}

/// A call without or with files.
#[derive(Debug, PartialEq)]
pub enum PlatformCall {
    Document(Request),
    Form(PlatformForm),
}

/// What a call says.
pub enum PlatformCallView {
    Document(RequestView),
    Form(PlatformFormView),
}

impl View for PlatformCall {
    type V = PlatformCallView;

    open spec fn view(&self) -> PlatformCallView {
        match *self {
            PlatformCall::Document(request) => PlatformCallView::Document(request@),
            PlatformCall::Form(form) => PlatformCallView::Form(form@),
        }
    }
}

/// A call of any method: the parameters are an object, those that are null are
/// left out, and where there are files the others stand in a form.
pub open spec fn platform_outcome(
    method: Seq<char>,
    parameters: JsonView,
    has_files: bool,
) -> Result<PlatformCallView, ErrorView> {
    match json::stripped(parameters) {
        JsonView::Object(map) => if !has_files {
            Ok(PlatformCallView::Document(RequestView { method, payload: map }))
        } else {
            let keys = json::sorted_keys(map.dom());
            match form_values(map, keys, keys.len() as int) {
                Err(e) => Err(e),
                Ok(values) => Ok(
                    PlatformCallView::Form(PlatformFormView { method, values, fields: keys }),
                ),
            }
        },
        _ => error::refused("platform API parameters must be a JSON object"@),
    }
}

fn fill_form(method: &str, map: &Fields) -> (result: Result<PlatformForm, Error>)
    ensures
        ({
            let keys = json::sorted_keys(map@.dom());
            match form_values(json::fields(*map), keys, keys.len() as int) {
                Err(e) => result matches Err(error) && error@ == e,
                Ok(values) => result matches Ok(form) && form@ == (PlatformFormView {
                    method: method@,
                    values,
                    fields: keys,
                }),
            }
        }),
{
    let n: usize = map.len();
    let ghost keys = map.keys();
    proof {
        json::lemma_sorted_keys(keys, map@.dom());
    }
    let mut values: Vec<(String, String)> = Vec::new();
    let mut fields: Vec<String> = Vec::new();
    let mut i: usize = 0;
    assert(pairs(values@) =~= Seq::<(Seq<char>, Seq<char>)>::empty());
    while i < n
        invariant
            i <= n,
            n == keys.len(),
            keys == map.keys(),
            keys == json::sorted_keys(map@.dom()),
            json::lists_keys(keys, map@.dom()),
            form_values(json::fields(*map), keys, i as int) == Ok::<
                Seq<(Seq<char>, Seq<char>)>,
                ErrorView,
            >(pairs(values@)),
            listed(fields@) == keys.take(i as int),
            forall|k: int| 0 <= k < i ==> (#[trigger] keys[k]).len() > 0,
        decreases n - i,
    {
        let (key, value) = map.entry(i);
        assert(json::fields(*map)[keys[i as int]] == value@);
        if key.is_empty() {
            let e = message("platform API multipart parameter name cannot be empty");
            proof {
                lemma_values_refused(json::fields(*map), keys, i + 1, n as int, e@);
            }
            return Err(e);
        }
        let text = match platform_form_value(value) {
            Ok(text) => text,
            Err(e) => {
                proof {
                    lemma_values_refused(json::fields(*map), keys, i + 1, n as int, e@);
                }
                return Err(e);
            },
        };
        let ghost before = pairs(values@);
        let ghost named = listed(fields@);
        values.push((key.to_owned(), text));
        fields.push(key.to_owned());
        assert(pairs(values@) =~= before.push((key@, text@)));
        assert(listed(fields@) =~= named.push(key@));
        assert(keys.take(i + 1) =~= keys.take(i as int).push(keys[i as int]));
        i += 1;
    }
    assert(keys.take(n as int) =~= keys);
    proof {
        assert forall|a: int, b: int| 0 <= a < b < keys.len() implies keys[a] != keys[b] by {
            text::lemma_before_irreflexive(keys[a]);
        }
    }
    Ok(PlatformForm { method: method.to_owned(), values, fields })
}

/// Makes a call of any method.
pub fn call_platform_api(method: &str, parameters: Json, has_files: bool) -> (result: Result<
    PlatformCall,
    Error,
>)
    ensures
        error::shown(result) == platform_outcome(method@, parameters@, has_files),
{
    broadcast use json::lemma_json_view;

    match parameters {
        Json::Object(map) => {
            let map = strip_members(map);
            assert(json::stripped(parameters@) == JsonView::Object(json::fields(map)));
            assert(json::fields(map).dom() =~= map@.dom());
            if !has_files {
                Ok(PlatformCall::Document(Request { method: method.to_owned(), payload: map }))
            } else {
                let form = fill_form(method, &map)?;
                Ok(PlatformCall::Form(form))
            }
        },
        _ => Err(message("platform API parameters must be a JSON object")),
    }
}

// ---------------------------------------------------------------------------
// Files
// ---------------------------------------------------------------------------

/// What is wrong with a file that is to be put into a form.
pub open spec fn file_flaw(
    fields: Seq<Seq<char>>,
    field: Seq<char>,
    file_name: Seq<char>,
) -> Option<ErrorView> {
    if field.len() == 0 {
        Some(ErrorView::Message("platform API attachment field cannot be empty"@))
    } else if fields.contains(field) {
        Some(
            ErrorView::Message("duplicate platform API multipart field "@ + native::quoted(field)),
        )
    } else if file_name.len() == 0 {
        Some(ErrorView::Message("platform API attachment file name cannot be empty"@))
    } else {
        None
    }
}

fn holds_name(names: &Vec<String>, name: &str) -> (held: bool)
    ensures
        held == listed(names@).contains(name@),
{
    let mut i: usize = 0;
    while i < names.len()
        invariant
            i <= names@.len(),
            forall|k: int| 0 <= k < i ==> (#[trigger] names@[k])@ != name@,
        decreases names@.len() - i,
    {
        if same(names[i].as_str(), name) {
            assert(listed(names@)[i as int] == name@);
            return true;
        }
        i += 1;
    }
    false
}

impl PlatformForm {
    #[verifier::type_invariant]
    spec fn well_formed(self) -> bool {
        proper(listed(self.fields@))
    }

    /// The method that is called.
    pub fn method(&self) -> (method: &str)
        ensures
            method@ == self@.method,
    {
        self.method.as_str()
    }

    /// The values in the form.
    pub fn values(&self) -> (values: &Vec<(String, String)>)
        ensures
            pairs(values@) == self@.values,
    {
        &self.values
    }

    /// Makes room for a file under the given field; the names of the fields stay
    /// proper.
    pub fn accept(&mut self, field: &str, file_name: &str) -> (result: Result<(), Error>)
        ensures
            proper(old(self)@.fields),
            proper(final(self)@.fields),
            match result {
                Ok(_) => file_flaw(old(self)@.fields, field@, file_name@) is None && final(self)@
                    == (PlatformFormView {
                    fields: old(self)@.fields.push(field@),
                    ..old(self)@
                }),
                Err(e) => file_flaw(old(self)@.fields, field@, file_name@) == Some(e@)
                    && final(self)@ == old(self)@,
            },
    {
        proof {
            use_type_invariant(&*self);
        }
        if field.is_empty() {
            return Err(message("platform API attachment field cannot be empty"));
        }
        if holds_name(&self.fields, field) {
            let name = quote(field);
            return Err(
                Error::Message(joined("duplicate platform API multipart field ", name.as_str())),
            );
        }
        if file_name.is_empty() {
            return Err(message("platform API attachment file name cannot be empty"));
        }
        let ghost before = listed(self.fields@);
        let mut fields: Vec<String> = Vec::new();
        std::mem::swap(&mut fields, &mut self.fields);
        fields.push(field.to_owned());
        assert(listed(fields@) =~= before.push(field@));
        self.fields = fields;
        Ok(())
    }
}

proof fn lemma_form_value(map: Map<Seq<char>, JsonView>, keys: Seq<Seq<char>>, n: int, i: int)
    requires
        form_values(map, keys, n) is Ok,
        0 <= i < n,
    ensures
        form_values(map, keys, n)->Ok_0.len() == n,
        form_values(map, keys, n)->Ok_0[i].0 == keys[i],
        form_text(map[keys[i]]) == Ok::<Seq<char>, ErrorView>(form_values(map, keys, n)->Ok_0[i].1),
    decreases n,
{
    reveal_with_fuel(form_values, 2);
    if i < n - 1 {
        lemma_form_value(map, keys, n - 1, i);
    } else if n > 1 {
        lemma_form_value(map, keys, n - 1, 0);
    }
}

/// A call of any method says every parameter that is not null and no other: as
/// a document as it is, and as a form each under its own name, a text as that
/// text.
pub proof fn law_any_call_says_its_parameters(
    method: Seq<char>,
    parameters: Map<Seq<char>, JsonView>,
    key: Seq<char>,
)
    requires
        parameters.dom().finite(),
    ensures
        platform_outcome(method, JsonView::Object(parameters), false) matches Ok(
            PlatformCallView::Document(call),
        ) && call.method == method && (json::member(parameters, key) matches Some(value)
            ==> json::member(call.payload, key) == if value is Null {
            None
        } else {
            Some(json::stripped(value))
        }) && (json::member(parameters, key) is None ==> json::member(call.payload, key) is None),
        platform_outcome(method, JsonView::Object(parameters), true) matches Ok(call) ==> (
        call matches PlatformCallView::Form(form) && form.method == method && (json::member(
            parameters,
            key,
        ) matches Some(JsonView::Text(text)) ==> form.values.contains((key, text)))),
{
    json::lemma_stripped_member(parameters, key);
    let map = json::stripped(JsonView::Object(parameters))->Object_0;
    if platform_outcome(method, JsonView::Object(parameters), true) is Ok {
        if let Some(JsonView::Text(text)) = json::member(parameters, key) {
            lemma_stripped_is_finite(parameters);
            json::lemma_sorted_keys_exist(map.dom());
            let keys = json::sorted_keys(map.dom());
            assert(map.dom().contains(key));
            let i = choose|i: int| 0 <= i < keys.len() && keys[i] == key;
            lemma_form_value(map, keys, keys.len() as int, i);
            let values = form_values(map, keys, keys.len() as int)->Ok_0;
            assert(values[i] == (key, text));
        }
    }
}

proof fn lemma_stripped_is_finite(parameters: Map<Seq<char>, JsonView>)
    requires
        parameters.dom().finite(),
    ensures
        json::stripped(JsonView::Object(parameters)) is Object,
        json::stripped(JsonView::Object(parameters))->Object_0.dom().finite(),
{
    let map = json::stripped(JsonView::Object(parameters))->Object_0;
    assert forall|key: Seq<char>| map.dom().contains(key) implies parameters.dom().contains(
        key,
    ) by {
        json::lemma_stripped_member(parameters, key);
    }
    assert(map.dom().subset_of(parameters.dom()));
    vstd::set_lib::lemma_len_subset(map.dom(), parameters.dom());
}

/// A file is refused where its field is taken by a parameter or by another
/// file, and accepted where its field is free and both are named.
pub proof fn law_files_have_fields_of_their_own(
    fields: Seq<Seq<char>>,
    field: Seq<char>,
    file_name: Seq<char>,
)
    ensures
        file_flaw(fields, field, file_name) is None <==> field.len() > 0 && file_name.len() > 0
            && !fields.contains(field),
        file_flaw(fields, field, file_name) is None && proper(fields) ==> proper(fields.push(field)),
{
    if file_flaw(fields, field, file_name) is None && proper(fields) {
        let all = fields.push(field);
        assert forall|i: int, j: int| 0 <= i < all.len() && 0 <= j < all.len() && i != j implies all[i]
            != all[j] by {}
    }
}

} // verus!
