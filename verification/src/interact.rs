//! The event dispatcher and the report command handler: route an
//! authenticated payload by kind, validate the command's invariants, and
//! render the report artifact that the outbound relay will carry. The relay
//! call itself is I/O and lives outside; the handler fixes exactly what is
//! sent and what the invoker is told for every outcome.

use vstd::prelude::*;
use vstd::string::StringExecFns;

use crate::model::{
    CommandData, Interaction, InteractionData, InteractionKind, MessageSnapshot, ResolvedData,
    lookup_seq,
};
use crate::text::{mention, mention_seq, rel_time, rel_time_seq};

verus! {

/// The kind of an interaction response.
#[derive(Debug, Clone, Copy, PartialEq, Eq, Structural)]
pub enum ResponseKind {
    /// Bare acknowledgment of the protocol handshake; carries no data.
    Pong,
    /// A message shown in the channel the interaction came from.
    ChannelMessageWithSource,
}

/// The data of a message response: one embedded description, optionally
/// visible to the invoker alone.
#[derive(Debug)]
pub struct ResponseData {
    pub ephemeral: bool,
    pub embed_description: Option<String>,
}

/// A response to an authenticated interaction.
#[derive(Debug)]
pub struct InteractionResponse {
    pub kind: ResponseKind,
    pub data: Option<ResponseData>,
}

/// `r` is an ephemeral message response whose one embedded description reads
/// `text`.
pub open spec fn is_ephemeral_message(r: InteractionResponse, text: Seq<char>) -> bool {
    &&& r.kind is ChannelMessageWithSource
    &&& r.data matches Some(d) && d.ephemeral && (d.embed_description matches Some(s) && s@
        == text)
}

/// Wrap `description` in the standard ephemeral notice shown to the invoker.
pub fn interaction_message(description: String) -> (r: InteractionResponse)
    ensures
        is_ephemeral_message(r, description@),
{
    InteractionResponse {
        kind: ResponseKind::ChannelMessageWithSource,
        data: Some(ResponseData { ephemeral: true, embed_description: Some(description) }),
    }
}

/// The bare acknowledgment of the protocol handshake: no data at all.
pub fn pong() -> (r: InteractionResponse)
    ensures
        r.kind is Pong,
        r.data is None,
{
    InteractionResponse { kind: ResponseKind::Pong, data: None }
}

/// The fixed notice for interaction kinds the service does not handle.
pub fn unsupported() -> (r: InteractionResponse)
    ensures
        is_ephemeral_message(r, "Unsupported interaction kind"@),
{
    interaction_message(String::from_str("Unsupported interaction kind"))
}

/// Why a command invocation could not be turned into a report, or why the
/// report could not be delivered. Every variant is surfaced to the invoker
/// as readable text, never as an HTTP error.
#[derive(Debug, Clone, Copy, PartialEq, Eq, Structural)]
pub enum Error {
    /// The outbound relay call failed.
    Discord,
    /// A declaration could not be serialized.
    Json,
    /// The payload is not the expected command shape.
    BadInteractionData,
    /// The payload carries no resolved-data bundle.
    NoResolvedData,
    /// The payload names no target message.
    NoTargetId,
    /// The named target is absent from the resolved bundle.
    MissingMessage,
    /// No invoking user is identifiable.
    NoInteractionInvoker,
    /// The invoker is the author of the targeted message.
    CantReportOwnMessage,
}

impl Error {
    /// The user-facing text of this error.
    pub open spec fn message_spec(&self) -> Seq<char> {
        match self {
            Error::Discord => "Contacting discord returned an error"@,
            Error::Json => "Failed to serialize commands"@,
            Error::BadInteractionData => "Bad interaction data"@,
            Error::NoResolvedData => "No resolved data"@,
            Error::NoTargetId => "No target ID"@,
            Error::MissingMessage => "Missing message in resolved data"@,
            Error::NoInteractionInvoker => "No interaction invoker!"@,
            Error::CantReportOwnMessage => "You can't report your own message!"@,
        }
    }

    /// Render the user-facing text of this error.
    pub fn message(&self) -> (r: String)
        ensures
            r@ == self.message_spec(),
    {
        match self {
            Error::Discord => String::from_str("Contacting discord returned an error"),
            Error::Json => String::from_str("Failed to serialize commands"),
            Error::BadInteractionData => String::from_str("Bad interaction data"),
            Error::NoResolvedData => String::from_str("No resolved data"),
            Error::NoTargetId => String::from_str("No target ID"),
            Error::MissingMessage => String::from_str("Missing message in resolved data"),
            Error::NoInteractionInvoker => String::from_str("No interaction invoker!"),
            Error::CantReportOwnMessage => String::from_str("You can't report your own message!"),
        }
    }
}

/// The Unix second a snowflake identifier was minted: its high 42 bits are
/// milliseconds since the platform epoch.
pub open spec fn created_at_spec(id: u64) -> u64 {
    ((((id >> 22) as int) + 1420070400000) / 1000) as u64
}

/// Decode the creation time embedded in the snowflake identifier `id`.
pub fn created_at(id: u64) -> (r: u64)
    ensures
        r == created_at_spec(id),
        r == (((id >> 22) as int) + 1420070400000) / 1000,
{
    proof {
        assert((id >> 22) <= 0x3ffffffffffu64) by (bit_vector);
    }
    ((id >> 22) + 1420070400000) / 1000
}

/// One labeled display field of the report artifact.
#[derive(Debug)]
pub struct EmbedField {
    pub name: String,
    pub value: String,
    pub inline: bool,
}

/// The report artifact: the reported message's text, and the display block
/// the relay will show beside it.
#[derive(Debug)]
pub struct Report {
    pub content: String,
    pub fields: Vec<EmbedField>,
}

/// The text of the "edited" field: a relative time, or the literal "never".
pub open spec fn edited_seq(edited: Option<u64>) -> Seq<char> {
    match edited {
        Some(t) => rel_time_seq(t),
        None => "never"@,
    }
}

/// The four display fields of a report on `m` invoked by `invoker`: author
/// mention, reporter mention, edited-at, sent-at, all inline.
pub open spec fn report_fields_ok(m: MessageSnapshot, invoker: u64, fields: Seq<EmbedField>) -> bool {
    &&& fields.len() == 4
    &&& fields[0].name@ == "author"@ && fields[0].value@ == mention_seq(m.author_id)
        && fields[0].inline
    &&& fields[1].name@ == "reporter"@ && fields[1].value@ == mention_seq(invoker)
        && fields[1].inline
    &&& fields[2].name@ == "edited"@ && fields[2].value@ == edited_seq(m.edited_timestamp)
        && fields[2].inline
    &&& fields[3].name@ == "sent"@ && fields[3].value@ == rel_time_seq(created_at_spec(m.id))
        && fields[3].inline
}

/// What the handler decides for `i`, checked in order: an identifiable
/// invoker, the command payload shape, a resolved bundle, a target
/// identifier, the target present in the bundle, and the invoker not being
/// the target's author.
pub open spec fn command_outcome(i: Interaction) -> Result<(u64, MessageSnapshot), Error> {
    match i.invoker_id {
        None => Err(Error::NoInteractionInvoker),
        Some(invoker) => match i.data {
            Some(InteractionData::ApplicationCommand(data)) => match data.resolved {
                None => Err(Error::NoResolvedData),
                Some(resolved) => match data.target_id {
                    None => Err(Error::NoTargetId),
                    Some(target) => match lookup_seq(resolved.messages@, target) {
                        None => Err(Error::MissingMessage),
                        Some(m) => if m.author_id == invoker {
                            Err(Error::CantReportOwnMessage)
                        } else {
                            Ok((invoker, m))
                        },
                    },
                },
            },
            _ => Err(Error::BadInteractionData),
        },
    }
}

/// Validate a command payload and render its report artifact. Fails exactly
/// as `command_outcome` says; on success the artifact carries the reported
/// message's text and the four display fields.
pub fn command(interaction: &Interaction) -> (r: Result<Report, Error>)
    ensures
        r is Ok <==> command_outcome(*interaction) is Ok,
        r matches Err(e) ==> command_outcome(*interaction) matches Err(e2) && e2 == e,
        r matches Ok(rep) ==> command_outcome(*interaction) matches Ok((invoker, m))
            && rep.content@ == m.content@ && report_fields_ok(m, invoker, rep.fields@),
{
    let invoker: u64 = match &interaction.invoker_id {
        Some(id) => *id,
        None => {
            return Err(Error::NoInteractionInvoker);
        },
    };
    let data: &CommandData = match &interaction.data {
        Some(InteractionData::ApplicationCommand(d)) => d,
        _ => {
            return Err(Error::BadInteractionData);
        },
    };
    let resolved: &ResolvedData = match &data.resolved {
        Some(res) => res,
        None => {
            return Err(Error::NoResolvedData);
        },
    };
    let target: u64 = match &data.target_id {
        Some(t) => *t,
        None => {
            return Err(Error::NoTargetId);
        },
    };
    let message: &MessageSnapshot = match resolved.lookup(target) {
        Some(m) => m,
        None => {
            return Err(Error::MissingMessage);
        },
    };
    if message.author_id == invoker {
        return Err(Error::CantReportOwnMessage);
    }
    let edited_value: String = match &message.edited_timestamp {
        Some(t) => rel_time(*t),
        None => String::from_str("never"),
    };
    let mut fields: Vec<EmbedField> = Vec::new();
    fields.push(
        EmbedField {
            name: String::from_str("author"),
            value: mention(message.author_id),
            inline: true,
        },
    );
    fields.push(
        EmbedField { name: String::from_str("reporter"), value: mention(invoker), inline: true },
    );
    fields.push(
        EmbedField { name: String::from_str("edited"), value: edited_value, inline: true },
    );
    fields.push(
        EmbedField {
            name: String::from_str("sent"),
            value: rel_time(created_at(message.id)),
            inline: true,
        },
    );
    Ok(Report { content: message.content.clone(), fields })
}

/// What the service must do for an authenticated payload: acknowledge the
/// handshake, deliver a report and then answer, or answer at once.
pub enum Plan {
    /// Answer with the bare handshake acknowledgment.
    Pong,
    /// Relay this report outward, then answer as the delivery went.
    Deliver(Report),
    /// Answer with this response; nothing is relayed.
    Reply(InteractionResponse),
}

/// Dispatch an authenticated payload by kind. A handshake is acknowledged
/// bare; a command either yields a report to deliver or its failure rendered
/// as an ephemeral notice; anything else yields the fixed unsupported notice.
pub fn interact(interaction: &Interaction) -> (r: Plan)
    ensures
        interaction.kind is Ping ==> r is Pong,
        interaction.kind is ApplicationCommand ==> (command_outcome(*interaction) matches Ok(
            (invoker, m),
        ) ==> (r matches Plan::Deliver(rep) && rep.content@ == m.content@ && report_fields_ok(
            m,
            invoker,
            rep.fields@,
        ))),
        interaction.kind is ApplicationCommand ==> (command_outcome(*interaction) matches Err(e)
            ==> (r matches Plan::Reply(resp) && is_ephemeral_message(resp, e.message_spec()))),
        interaction.kind is Other ==> (r matches Plan::Reply(resp) && is_ephemeral_message(
            resp,
            "Unsupported interaction kind"@,
        )),
{
    match interaction.kind {
        InteractionKind::Ping => Plan::Pong,
        InteractionKind::ApplicationCommand => match command(interaction) {
            Ok(report) => Plan::Deliver(report),
            Err(e) => Plan::Reply(interaction_message(e.message())),
        },
        InteractionKind::Other => Plan::Reply(unsupported()),
    }
}

/// The answer owed to the invoker once a report's delivery was attempted:
/// the literal confirmation on success, the delivery-failure notice
/// otherwise.
pub fn delivery_response(delivered: bool) -> (r: InteractionResponse)
    ensures
        delivered ==> is_ephemeral_message(r, "Report submitted. Thank you!"@),
        !delivered ==> is_ephemeral_message(r, Error::Discord.message_spec()),
{
    if delivered {
        interaction_message(String::from_str("Report submitted. Thank you!"))
    } else {
        interaction_message(Error::Discord.message())
    }
}

/// A command payload whose invoker is the author of the targeted message is
/// always rejected as a self-report: the handler's outcome is the
/// self-report error, so the dispatcher never plans a delivery for it.
pub proof fn lemma_self_report_rejected(i: Interaction, invoker: u64, m: MessageSnapshot)
    requires
        i.invoker_id == Some(invoker),
        i.data matches Some(InteractionData::ApplicationCommand(d)) && (d.resolved matches Some(
            res,
        ) && (d.target_id matches Some(t) && lookup_seq(res.messages@, t) == Some(m))),
        m.author_id == invoker,
    ensures
        command_outcome(i) == Err::<(u64, MessageSnapshot), Error>(Error::CantReportOwnMessage),
{
}

} // verus!
