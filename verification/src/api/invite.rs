//! Invite links.
use crate::commerce::Money;
use crate::conversation::{ConversationRef, InviteLink, InviteLinkOptions};
use crate::error;
use crate::error::{message, Error, ErrorView};
use crate::json;
use crate::json::{Fields, Json, JsonView};
use crate::api::layout;
use crate::api::layout::write_optional_u32;
use crate::telegram::User as TelegramUser;
use crate::text::same;
use crate::time;
use crate::time::instant;
use crate::utils;
use crate::utils::parse_user;
use vstd::prelude::*;

verus! {

/// The first rule that the options of an invite link break.
pub open spec fn invite_rule(options: InviteLinkOptions) -> Result<(), ErrorView> {
    if options.require_approval && options.max_uses is Some {
        error::refused("Telegram join-request invite links cannot have a member limit"@)
    } else if options.temporary_membership {
        error::refused("Telegram invite links do not expose temporary membership"@)
    } else if options.subscription_price matches Some(price) && !(price.currency@ == "XTR"@ && 1
        <= price.amount <= 10_000) {
        error::refused("Telegram subscription invite prices must contain 1 to 10000 XTR"@)
    } else if options.subscription_price is Some && (options.require_approval
        || options.max_uses is Some) {
        error::refused(
            "Telegram subscription invite links cannot require approval or have a member limit"@,
        )
    } else {
        Ok(())
    }
}

/// Accepts the options of an invite link.
pub fn validate_invite_options(options: &InviteLinkOptions) -> (result: Result<(), Error>)
    ensures
        error::shown(result) == invite_rule(*options),
{
    if options.require_approval && options.max_uses.is_some() {
        return Err(message("Telegram join-request invite links cannot have a member limit"));
    }
    if options.temporary_membership {
        return Err(message("Telegram invite links do not expose temporary membership"));
    }
    if let Some(price) = &options.subscription_price {
        if !(same(price.currency.as_str(), "XTR") && 1 <= price.amount && price.amount <= 10_000) {
            return Err(message("Telegram subscription invite prices must contain 1 to 10000 XTR"));
        }
        if options.require_approval || options.max_uses.is_some() {
            return Err(
                message(
                    "Telegram subscription invite links cannot require approval or have a member limit",
                ),
            );
        }
    }
    Ok(())
}

/// The parameters of an invite link.
pub open spec fn invite_fields(payload: Map<Seq<char>, JsonView>, options: InviteLinkOptions) -> Map<
    Seq<char>,
    JsonView,
> {
    payload.insert("name"@, json::optional_text_view(options.name)).insert(
        "expire_date"@,
        json::optional_int_view(options.expires_at),
    ).insert("member_limit"@, layout::optional_u32_view(options.max_uses)).insert(
        "creates_join_request"@,
        JsonView::Bool(options.require_approval),
    )
}

/// Adds the parameters of an invite link.
pub fn add_invite_options(payload: Fields, options: &InviteLinkOptions) -> (result: Fields)
    ensures
        json::fields(result) == invite_fields(json::fields(payload), *options),
{
    let mut payload = payload;
    payload.put("name", Json::optional_text(&options.name));
    payload.put("expire_date", Json::optional_integer(options.expires_at));
    payload.put("member_limit", write_optional_u32(options.max_uses));
    payload.put("creates_join_request", Json::bool(options.require_approval));
    payload
}

/// The method that makes or changes an invite link, and its parameters: a
/// link with a price is a subscription for thirty days.
pub open spec fn invite_call(
    payload: Map<Seq<char>, JsonView>,
    options: InviteLinkOptions,
    editing: bool,
) -> (Seq<char>, Map<Seq<char>, JsonView>) {
    match options.subscription_price {
        Some(price) => (
            if editing {
                "editChatSubscriptionInviteLink"@
            } else {
                "createChatSubscriptionInviteLink"@
            },
            payload.remove("member_limit"@).remove("creates_join_request"@).insert(
                "subscription_period"@,
                JsonView::Integer(2_592_000),
            ).insert("subscription_price"@, JsonView::Integer(price.amount as int)),
        ),
        None => (
            if editing {
                "editChatInviteLink"@
            } else {
                "createChatInviteLink"@
            },
            payload,
        ),
    }
}

/// Finds the method that makes or changes an invite link, and its parameters.
pub fn add_subscription_invite_options(
    payload: Fields,
    options: &InviteLinkOptions,
    editing: bool,
) -> (result: (&'static str, Fields))
    ensures
        (result.0@, json::fields(result.1)) == invite_call(
            json::fields(payload),
            *options,
            editing,
        ),
{
    let mut payload = payload;
    match &options.subscription_price {
        Some(price) => {
            let _ = payload.take("member_limit");
            let _ = payload.take("creates_join_request");
            payload.put("subscription_period", Json::integer(2_592_000));
            payload.put("subscription_price", Json::integer(price.amount));
            if editing {
                ("editChatSubscriptionInviteLink", payload)
            } else {
                ("createChatSubscriptionInviteLink", payload)
            }
        },
        None => {
            if editing {
                ("editChatInviteLink", payload)
            } else {
                ("createChatInviteLink", payload)
            }
        },
    }
}

/// An invite link that Telegram sent.
#[derive(Debug, PartialEq)]
pub struct TelegramChatInviteLink {
    pub invite_link: String,
    pub creator: TelegramUser,
    pub creates_join_request: bool,
    pub is_revoked: bool,
    pub name: Option<String>,
    pub expire_date: Option<i64>,
    pub member_limit: Option<u32>,
    pub pending_join_request_count: Option<u64>,
    pub subscription_price: Option<i64>,
}

/// The link says what Telegram sent, and keeps the options that Telegram does
/// not send.
pub open spec fn reads_invite(
    link: InviteLink,
    invite: TelegramChatInviteLink,
    conversation: ConversationRef,
    options: InviteLinkOptions,
) -> bool {
    &&& link.id@ == invite.invite_link@
    &&& link.url@ == invite.invite_link@
    &&& link.conversation == conversation
    &&& link.creator matches Some(creator)
    &&& utils::is_user(
        creator,
        invite.creator.id as int,
        Some(utils::user_name(invite.creator)),
    )
    &&& link.options.name == invite.name
    &&& link.options.expires_at == match invite.expire_date {
        Some(date) => time::instant_of(date),
        None => None,
    }
    &&& link.options.max_uses == invite.member_limit
    &&& link.options.require_approval == invite.creates_join_request
    &&& link.options.temporary_membership == options.temporary_membership
    &&& match invite.subscription_price {
        Some(amount) => link.options.subscription_price matches Some(price) && price.currency@
            == "XTR"@ && price.amount == amount,
        None => link.options.subscription_price == options.subscription_price,
    }
    &&& link.options.platform_data == options.platform_data
    &&& link.use_count == invite.pending_join_request_count
    &&& link.revoked == invite.is_revoked
    &&& link.platform_data is None
}

/// Reads an invite link that Telegram sent.
pub fn telegram_invite_link(
    invite: TelegramChatInviteLink,
    conversation: ConversationRef,
    options: InviteLinkOptions,
) -> (link: InviteLink)
    ensures
        reads_invite(link, invite, conversation, options),
{
    let expires_at = match invite.expire_date {
        Some(date) => instant(date),
        None => None,
    };
    let subscription_price = match invite.subscription_price {
        Some(amount) => Some(Money { currency: "XTR".to_owned(), amount }),
        None => options.subscription_price,
    };
    InviteLink {
        id: invite.invite_link.clone(),
        url: invite.invite_link,
        conversation,
        creator: Some(parse_user(&invite.creator)),
        options: InviteLinkOptions {
            name: invite.name,
            expires_at,
            max_uses: invite.member_limit,
            require_approval: invite.creates_join_request,
            temporary_membership: options.temporary_membership,
            subscription_price,
            platform_data: options.platform_data,
        },
        use_count: invite.pending_join_request_count,
        revoked: invite.is_revoked,
        platform_data: None,
    }
}

/// A link is accepted exactly where its options can stand together: a limit of
/// members or an approval or a price, a price between one and ten thousand
/// stars, and no membership for a time.
pub proof fn law_links_are_refused_only_for_cause(options: InviteLinkOptions)
    ensures
        invite_rule(options) is Ok <==> !options.temporary_membership && !(options.require_approval
            && options.max_uses is Some) && (options.subscription_price matches Some(price)
            ==> price.currency@ == "XTR"@ && 1 <= price.amount <= 10000 && !options.require_approval
            && options.max_uses is None),
{
}

/// A link is read as Telegram made it: revoked where it was revoked, asking for
/// approval where it makes requests to join, with its limits and its price.
pub proof fn law_links_are_read_as_they_are(
    link: InviteLink,
    invite: TelegramChatInviteLink,
    conversation: ConversationRef,
    options: InviteLinkOptions,
)
    requires
        reads_invite(link, invite, conversation, options),
    ensures
        link.url@ == invite.invite_link@,
        link.revoked <==> invite.is_revoked,
        link.options.require_approval <==> invite.creates_join_request,
        link.options.max_uses == invite.member_limit,
        link.options.name == invite.name,
        invite.subscription_price matches Some(amount) ==> (
        link.options.subscription_price matches Some(price) && price.amount == amount),
        link.use_count == invite.pending_join_request_count,
        link.creator matches Some(creator) && creator.id@ == crate::text::decimal(
            invite.creator.id as int,
        ),
{
}

} // verus!
