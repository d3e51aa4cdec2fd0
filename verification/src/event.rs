//! Lifecycle events of the daemon: emitted on transitions the bus watcher
//! observes or the manager performs, and multicast to all subscribers.
//!
//! Events cross the wire as JSON documents of the form
//! `{"event":<tag>,"data":<body>}`. The codec here writes that form and
//! reads it back; the round-trip law at the bottom proves that every
//! event survives the trip unchanged.

use vstd::prelude::*;

use crate::json::{escape_str, push_escaped, scan_string, strip_lit};
use crate::state::{state_from_name, state_name, PipelineState};
use crate::text::{chars_to_string, push_str_chars, str_eq, str_to_chars};

verus! {

/// Capacity of the broadcast channel that fans events out to subscribers.
pub const EVENT_CHANNEL_CAPACITY: usize = 256;

/// A lifecycle event, tagged with the originating pipeline id.
#[derive(Debug, Clone, PartialEq)]
pub enum PipelineEvent {
    /// The pipeline root changed state (descendant elements are ignored).
    StateChanged { pipeline_id: String, old_state: PipelineState, new_state: PipelineState },
    /// A runtime error that is not classified as unsupported media.
    Error { pipeline_id: String, message: String },
    /// A runtime error classified as a media-capability shortfall.
    Unsupported { pipeline_id: String, message: String },
    /// End of stream.
    Eos { pipeline_id: String },
    /// A pipeline entered the registry.
    PipelineAdded { pipeline_id: String, description: String },
    /// A pipeline was atomically replaced under its id.
    PipelineUpdated { pipeline_id: String, description: String },
    /// A pipeline left the registry.
    PipelineRemoved { pipeline_id: String },
}

/// The id of the pipeline an event speaks about.
pub open spec fn event_pipeline_id(e: PipelineEvent) -> Seq<char> {
    match e {
        PipelineEvent::StateChanged { pipeline_id, .. } => pipeline_id@,
        PipelineEvent::Error { pipeline_id, .. } => pipeline_id@,
        PipelineEvent::Unsupported { pipeline_id, .. } => pipeline_id@,
        PipelineEvent::Eos { pipeline_id } => pipeline_id@,
        PipelineEvent::PipelineAdded { pipeline_id, .. } => pipeline_id@,
        PipelineEvent::PipelineUpdated { pipeline_id, .. } => pipeline_id@,
        PipelineEvent::PipelineRemoved { pipeline_id } => pipeline_id@,
    }
}

/// The mathematical shape of an event: the same variants, with the
/// strings as character sequences.
pub enum EventModel {
    StateChanged { pipeline_id: Seq<char>, old_state: PipelineState, new_state: PipelineState },
    Error { pipeline_id: Seq<char>, message: Seq<char> },
    Unsupported { pipeline_id: Seq<char>, message: Seq<char> },
    Eos { pipeline_id: Seq<char> },
    PipelineAdded { pipeline_id: Seq<char>, description: Seq<char> },
    PipelineUpdated { pipeline_id: Seq<char>, description: Seq<char> },
    PipelineRemoved { pipeline_id: Seq<char> },
}

impl View for PipelineEvent {
    type V = EventModel;

    open spec fn view(&self) -> EventModel {
        match self {
            PipelineEvent::StateChanged { pipeline_id, old_state, new_state } =>
                EventModel::StateChanged {
                pipeline_id: pipeline_id@,
                old_state: *old_state,
                new_state: *new_state,
            },
            PipelineEvent::Error { pipeline_id, message } => EventModel::Error {
                pipeline_id: pipeline_id@,
                message: message@,
            },
            PipelineEvent::Unsupported { pipeline_id, message } => EventModel::Unsupported {
                pipeline_id: pipeline_id@,
                message: message@,
            },
            PipelineEvent::Eos { pipeline_id } => EventModel::Eos { pipeline_id: pipeline_id@ },
            PipelineEvent::PipelineAdded { pipeline_id, description } =>
                EventModel::PipelineAdded {
                pipeline_id: pipeline_id@,
                description: description@,
            },
            PipelineEvent::PipelineUpdated { pipeline_id, description } =>
                EventModel::PipelineUpdated {
                pipeline_id: pipeline_id@,
                description: description@,
            },
            PipelineEvent::PipelineRemoved { pipeline_id } => EventModel::PipelineRemoved {
                pipeline_id: pipeline_id@,
            },
        }
    }
}

/// The opening of the wire form, up to the opening quote of the tag.
pub open spec fn ev_head() -> Seq<char> {
    "{\"event\":\""@
}

/// A double quote.
pub open spec fn q() -> Seq<char> {
    "\""@
}

/// From after the tag's closing quote to the opening quote of the id.
pub open spec fn key_data_id() -> Seq<char> {
    ",\"data\":{\"pipeline_id\":\""@
}

pub open spec fn key_message() -> Seq<char> {
    ",\"message\":\""@
}

pub open spec fn key_description() -> Seq<char> {
    ",\"description\":\""@
}

pub open spec fn key_old_state() -> Seq<char> {
    ",\"old_state\":\""@
}

pub open spec fn key_new_state() -> Seq<char> {
    ",\"new_state\":\""@
}

/// The closing braces of the wire form.
pub open spec fn end_obj() -> Seq<char> {
    "}}"@
}

/// The wire form of an event: a JSON document
/// `{"event":<tag>,"data":<body>}`, with the body's fields in declaration
/// order and every string escaped.
pub open spec fn event_json(m: EventModel) -> Seq<char> {
    match m {
        EventModel::StateChanged { pipeline_id, old_state, new_state } => ev_head() + escape_str(
            "state_changed"@,
        ) + q() + key_data_id() + escape_str(pipeline_id) + q() + key_old_state() + escape_str(
            state_name(old_state),
        ) + q() + key_new_state() + escape_str(state_name(new_state)) + q() + end_obj(),
        EventModel::Error { pipeline_id, message } => ev_head() + escape_str("error"@) + q()
            + key_data_id() + escape_str(pipeline_id) + q() + key_message() + escape_str(message)
            + q() + end_obj(),
        EventModel::Unsupported { pipeline_id, message } => ev_head() + escape_str("unsupported"@)
            + q() + key_data_id() + escape_str(pipeline_id) + q() + key_message() + escape_str(
            message,
        ) + q() + end_obj(),
        EventModel::Eos { pipeline_id } => ev_head() + escape_str("eos"@) + q() + key_data_id()
            + escape_str(pipeline_id) + q() + end_obj(),
        EventModel::PipelineAdded { pipeline_id, description } => ev_head() + escape_str(
            "pipeline_added"@,
        ) + q() + key_data_id() + escape_str(pipeline_id) + q() + key_description() + escape_str(
            description,
        ) + q() + end_obj(),
        EventModel::PipelineUpdated { pipeline_id, description } => ev_head() + escape_str(
            "pipeline_updated"@,
        ) + q() + key_data_id() + escape_str(pipeline_id) + q() + key_description() + escape_str(
            description,
        ) + q() + end_obj(),
        EventModel::PipelineRemoved { pipeline_id } => ev_head() + escape_str("pipeline_removed"@)
            + q() + key_data_id() + escape_str(pipeline_id) + q() + end_obj(),
    }
}

/// Parses a body of the shape `,"data":{"pipeline_id":"<id>"}}`.
pub open spec fn parse_id_only(s: Seq<char>) -> Option<Seq<char>> {
    match strip_lit(s, key_data_id()) {
        None => None,
        Some(s1) => match scan_string(s1) {
            None => None,
            Some((id, s2)) => match strip_lit(s2, end_obj()) {
                Some(rest) => if rest.len() == 0 {
                    Some(id)
                } else {
                    None
                },
                None => None,
            },
        },
    }
}

/// Parses a body of the shape
/// `,"data":{"pipeline_id":"<id>",<key>"<value>"}}`.
pub open spec fn parse_id_and(s: Seq<char>, key: Seq<char>) -> Option<(Seq<char>, Seq<char>)> {
    match strip_lit(s, key_data_id()) {
        None => None,
        Some(s1) => match scan_string(s1) {
            None => None,
            Some((id, s2)) => match strip_lit(s2, key) {
                None => None,
                Some(s3) => match scan_string(s3) {
                    None => None,
                    Some((v, s4)) => match strip_lit(s4, end_obj()) {
                        Some(rest) => if rest.len() == 0 {
                            Some((id, v))
                        } else {
                            None
                        },
                        None => None,
                    },
                },
            },
        },
    }
}

/// Parses a `state_changed` body: the id, then the old and new states.
pub open spec fn parse_state_changed(s: Seq<char>) -> Option<EventModel> {
    match strip_lit(s, key_data_id()) {
        None => None,
        Some(s1) => match scan_string(s1) {
            None => None,
            Some((id, s2)) => match strip_lit(s2, key_old_state()) {
                None => None,
                Some(s3) => match scan_string(s3) {
                    None => None,
                    Some((olds, s4)) => match strip_lit(s4, key_new_state()) {
                        None => None,
                        Some(s5) => match scan_string(s5) {
                            None => None,
                            Some((news, s6)) => match strip_lit(s6, end_obj()) {
                                Some(rest) => if rest.len() == 0 {
                                    match (state_from_name(olds), state_from_name(news)) {
                                        (Some(o), Some(n)) => Some(
                                            EventModel::StateChanged {
                                                pipeline_id: id,
                                                old_state: o,
                                                new_state: n,
                                            },
                                        ),
                                        _ => None,
                                    }
                                } else {
                                    None
                                },
                                None => None,
                            },
                        },
                    },
                },
            },
        },
    }
}

/// Parses the wire form of an event back into its shape. This reads the
/// canonical encoding that [`event_json`] describes; field order is the
/// declaration order and no whitespace is admitted.
pub open spec fn parse_event_model(s: Seq<char>) -> Option<EventModel> {
    match strip_lit(s, ev_head()) {
        None => None,
        Some(s1) => match scan_string(s1) {
            None => None,
            Some((tag, s2)) => if tag == "state_changed"@ {
                parse_state_changed(s2)
            } else if tag == "error"@ {
                match parse_id_and(s2, key_message()) {
                    Some((id, m)) => Some(EventModel::Error { pipeline_id: id, message: m }),
                    None => None,
                }
            } else if tag == "unsupported"@ {
                match parse_id_and(s2, key_message()) {
                    Some((id, m)) => Some(
                        EventModel::Unsupported { pipeline_id: id, message: m },
                    ),
                    None => None,
                }
            } else if tag == "eos"@ {
                match parse_id_only(s2) {
                    Some(id) => Some(EventModel::Eos { pipeline_id: id }),
                    None => None,
                }
            } else if tag == "pipeline_added"@ {
                match parse_id_and(s2, key_description()) {
                    Some((id, d)) => Some(
                        EventModel::PipelineAdded { pipeline_id: id, description: d },
                    ),
                    None => None,
                }
            } else if tag == "pipeline_updated"@ {
                match parse_id_and(s2, key_description()) {
                    Some((id, d)) => Some(
                        EventModel::PipelineUpdated { pipeline_id: id, description: d },
                    ),
                    None => None,
                }
            } else if tag == "pipeline_removed"@ {
                match parse_id_only(s2) {
                    Some(id) => Some(EventModel::PipelineRemoved { pipeline_id: id }),
                    None => None,
                }
            } else {
                None
            },
        },
    }
}

/// Writes an event in its wire form.
pub fn serialize_event(e: &PipelineEvent) -> (r: String)
    ensures
        r@ == event_json(e@),
{
    let mut out: Vec<char> = Vec::new();
    push_str_chars(&mut out, "{\"event\":\"");
    match e {
        PipelineEvent::StateChanged { pipeline_id, old_state, new_state } => {
            push_escaped(&mut out, "state_changed");
            push_str_chars(&mut out, "\"");
            push_str_chars(&mut out, ",\"data\":{\"pipeline_id\":\"");
            push_escaped(&mut out, pipeline_id.as_str());
            push_str_chars(&mut out, "\"");
            push_str_chars(&mut out, ",\"old_state\":\"");
            push_escaped(&mut out, old_state.as_str());
            push_str_chars(&mut out, "\"");
            push_str_chars(&mut out, ",\"new_state\":\"");
            push_escaped(&mut out, new_state.as_str());
            push_str_chars(&mut out, "\"");
            push_str_chars(&mut out, "}}");
            assert(out@ =~= event_json(e@));
        },
        PipelineEvent::Error { pipeline_id, message } => {
            push_escaped(&mut out, "error");
            push_str_chars(&mut out, "\"");
            push_str_chars(&mut out, ",\"data\":{\"pipeline_id\":\"");
            push_escaped(&mut out, pipeline_id.as_str());
            push_str_chars(&mut out, "\"");
            push_str_chars(&mut out, ",\"message\":\"");
            push_escaped(&mut out, message.as_str());
            push_str_chars(&mut out, "\"");
            push_str_chars(&mut out, "}}");
            assert(out@ =~= event_json(e@));
        },
        PipelineEvent::Unsupported { pipeline_id, message } => {
            push_escaped(&mut out, "unsupported");
            push_str_chars(&mut out, "\"");
            push_str_chars(&mut out, ",\"data\":{\"pipeline_id\":\"");
            push_escaped(&mut out, pipeline_id.as_str());
            push_str_chars(&mut out, "\"");
            push_str_chars(&mut out, ",\"message\":\"");
            push_escaped(&mut out, message.as_str());
            push_str_chars(&mut out, "\"");
            push_str_chars(&mut out, "}}");
            assert(out@ =~= event_json(e@));
        },
        PipelineEvent::Eos { pipeline_id } => {
            push_escaped(&mut out, "eos");
            push_str_chars(&mut out, "\"");
            push_str_chars(&mut out, ",\"data\":{\"pipeline_id\":\"");
            push_escaped(&mut out, pipeline_id.as_str());
            push_str_chars(&mut out, "\"");
            push_str_chars(&mut out, "}}");
            assert(out@ =~= event_json(e@));
        },
        PipelineEvent::PipelineAdded { pipeline_id, description } => {
            push_escaped(&mut out, "pipeline_added");
            push_str_chars(&mut out, "\"");
            push_str_chars(&mut out, ",\"data\":{\"pipeline_id\":\"");
            push_escaped(&mut out, pipeline_id.as_str());
            push_str_chars(&mut out, "\"");
            push_str_chars(&mut out, ",\"description\":\"");
            push_escaped(&mut out, description.as_str());
            push_str_chars(&mut out, "\"");
            push_str_chars(&mut out, "}}");
            assert(out@ =~= event_json(e@));
        },
        PipelineEvent::PipelineUpdated { pipeline_id, description } => {
            push_escaped(&mut out, "pipeline_updated");
            push_str_chars(&mut out, "\"");
            push_str_chars(&mut out, ",\"data\":{\"pipeline_id\":\"");
            push_escaped(&mut out, pipeline_id.as_str());
            push_str_chars(&mut out, "\"");
            push_str_chars(&mut out, ",\"description\":\"");
            push_escaped(&mut out, description.as_str());
            push_str_chars(&mut out, "\"");
            push_str_chars(&mut out, "}}");
            assert(out@ =~= event_json(e@));
        },
        PipelineEvent::PipelineRemoved { pipeline_id } => {
            push_escaped(&mut out, "pipeline_removed");
            push_str_chars(&mut out, "\"");
            push_str_chars(&mut out, ",\"data\":{\"pipeline_id\":\"");
            push_escaped(&mut out, pipeline_id.as_str());
            push_str_chars(&mut out, "\"");
            push_str_chars(&mut out, "}}");
            assert(out@ =~= event_json(e@));
        },
    }
    chars_to_string(&out)
}

/// Reads an id-only body at `pos`.
fn parse_id_only_at(cs: &Vec<char>, pos: usize) -> (r: Option<String>)
    requires
        pos <= cs@.len(),
    ensures
        match r {
            Some(id) => parse_id_only(cs@.skip(pos as int)) == Some(id@),
            None => parse_id_only(cs@.skip(pos as int)) is None,
        },
{
    let p1 = match crate::json::strip_at(cs, pos, ",\"data\":{\"pipeline_id\":\"") {
        Some(p) => p,
        None => {
            return None;
        },
    };
    let (idc, p2) = match crate::json::scan_at(cs, p1) {
        Some(x) => x,
        None => {
            return None;
        },
    };
    let p3 = match crate::json::strip_at(cs, p2, "}}") {
        Some(p) => p,
        None => {
            return None;
        },
    };
    if p3 == cs.len() {
        assert(cs@.skip(p3 as int).len() == 0);
        Some(chars_to_string(&idc))
    } else {
        assert(cs@.skip(p3 as int).len() != 0);
        None
    }
}

/// Reads an id-and-one-more-string body at `pos`; `key` is the full text
/// between the id's closing quote and the value's opening quote.
fn parse_id_and_at(cs: &Vec<char>, pos: usize, key: &str) -> (r: Option<(String, String)>)
    requires
        pos <= cs@.len(),
    ensures
        match r {
            Some(p) => parse_id_and(cs@.skip(pos as int), key@) == Some((p.0@, p.1@)),
            None => parse_id_and(cs@.skip(pos as int), key@) is None,
        },
{
    let p1 = match crate::json::strip_at(cs, pos, ",\"data\":{\"pipeline_id\":\"") {
        Some(p) => p,
        None => {
            return None;
        },
    };
    let (idc, p2) = match crate::json::scan_at(cs, p1) {
        Some(x) => x,
        None => {
            return None;
        },
    };
    let p3 = match crate::json::strip_at(cs, p2, key) {
        Some(p) => p,
        None => {
            return None;
        },
    };
    let (vc, p4) = match crate::json::scan_at(cs, p3) {
        Some(x) => x,
        None => {
            return None;
        },
    };
    let p5 = match crate::json::strip_at(cs, p4, "}}") {
        Some(p) => p,
        None => {
            return None;
        },
    };
    if p5 == cs.len() {
        assert(cs@.skip(p5 as int).len() == 0);
        Some((chars_to_string(&idc), chars_to_string(&vc)))
    } else {
        assert(cs@.skip(p5 as int).len() != 0);
        None
    }
}

/// Reads a `state_changed` body at `pos`.
fn parse_state_changed_at(cs: &Vec<char>, pos: usize) -> (r: Option<PipelineEvent>)
    requires
        pos <= cs@.len(),
    ensures
        match r {
            Some(ev) => parse_state_changed(cs@.skip(pos as int)) == Some(ev@),
            None => parse_state_changed(cs@.skip(pos as int)) is None,
        },
{
    let p1 = match crate::json::strip_at(cs, pos, ",\"data\":{\"pipeline_id\":\"") {
        Some(p) => p,
        None => {
            return None;
        },
    };
    let (idc, p2) = match crate::json::scan_at(cs, p1) {
        Some(x) => x,
        None => {
            return None;
        },
    };
    let p3 = match crate::json::strip_at(cs, p2, ",\"old_state\":\"") {
        Some(p) => p,
        None => {
            return None;
        },
    };
    let (oldc, p4) = match crate::json::scan_at(cs, p3) {
        Some(x) => x,
        None => {
            return None;
        },
    };
    let p5 = match crate::json::strip_at(cs, p4, ",\"new_state\":\"") {
        Some(p) => p,
        None => {
            return None;
        },
    };
    let (newc, p6) = match crate::json::scan_at(cs, p5) {
        Some(x) => x,
        None => {
            return None;
        },
    };
    let p7 = match crate::json::strip_at(cs, p6, "}}") {
        Some(p) => p,
        None => {
            return None;
        },
    };
    if p7 != cs.len() {
        assert(cs@.skip(p7 as int).len() != 0);
        return None;
    }
    assert(cs@.skip(p7 as int).len() == 0);
    let olds = chars_to_string(&oldc);
    let news = chars_to_string(&newc);
    let old_state = match PipelineState::parse(olds.as_str()) {
        Ok(st) => st,
        Err(_) => {
            return None;
        },
    };
    let new_state = match PipelineState::parse(news.as_str()) {
        Ok(st) => st,
        Err(_) => {
            return None;
        },
    };
    Some(
        PipelineEvent::StateChanged {
            pipeline_id: chars_to_string(&idc),
            old_state,
            new_state,
        },
    )
}

/// Reads the wire form of an event back. This accepts the canonical
/// encoding that [`serialize_event`] writes (and state names
/// case-insensitively).
pub fn parse_event(s: &str) -> (r: Option<PipelineEvent>)
    ensures
        match r {
            Some(ev) => parse_event_model(s@) == Some(ev@),
            None => parse_event_model(s@) is None,
        },
{
    let cs = str_to_chars(s);
    proof {
        assert(cs@.skip(0) =~= s@);
    }
    let p1 = match crate::json::strip_at(&cs, 0, "{\"event\":\"") {
        Some(p) => p,
        None => {
            return None;
        },
    };
    let (tagc, p2) = match crate::json::scan_at(&cs, p1) {
        Some(x) => x,
        None => {
            return None;
        },
    };
    let tag = chars_to_string(&tagc);
    if str_eq(tag.as_str(), "state_changed") {
        parse_state_changed_at(&cs, p2)
    } else if str_eq(tag.as_str(), "error") {
        match parse_id_and_at(&cs, p2, ",\"message\":\"") {
            Some((id, m)) => Some(PipelineEvent::Error { pipeline_id: id, message: m }),
            None => None,
        }
    } else if str_eq(tag.as_str(), "unsupported") {
        match parse_id_and_at(&cs, p2, ",\"message\":\"") {
            Some((id, m)) => Some(PipelineEvent::Unsupported { pipeline_id: id, message: m }),
            None => None,
        }
    } else if str_eq(tag.as_str(), "eos") {
        match parse_id_only_at(&cs, p2) {
            Some(id) => Some(PipelineEvent::Eos { pipeline_id: id }),
            None => None,
        }
    } else if str_eq(tag.as_str(), "pipeline_added") {
        match parse_id_and_at(&cs, p2, ",\"description\":\"") {
            Some((id, d)) => Some(
                PipelineEvent::PipelineAdded { pipeline_id: id, description: d },
            ),
            None => None,
        }
    } else if str_eq(tag.as_str(), "pipeline_updated") {
        match parse_id_and_at(&cs, p2, ",\"description\":\"") {
            Some((id, d)) => Some(
                PipelineEvent::PipelineUpdated { pipeline_id: id, description: d },
            ),
            None => None,
        }
    } else if str_eq(tag.as_str(), "pipeline_removed") {
        match parse_id_only_at(&cs, p2) {
            Some(id) => Some(PipelineEvent::PipelineRemoved { pipeline_id: id }),
            None => None,
        }
    } else {
        None
    }
}

/// Stripping a concatenation's own prefix leaves its tail.
pub proof fn lemma_strip_concat(a: Seq<char>, b: Seq<char>)
    ensures
        strip_lit(a + b, a) == Some(b),
{
    assert((a + b).take(a.len() as int) =~= a);
    assert((a + b).skip(a.len() as int) =~= b);
}

/// Case-insensitive comparison is reflexive.
proof fn lemma_ascii_ieq_refl(s: Seq<char>)
    ensures
        crate::text::ascii_ieq(s, s),
{
    assert forall|i: int| 0 <= i < s.len() implies crate::text::char_ieq(s[i], #[trigger] s[i]) by {}
}

/// A state's canonical name parses back to the state.
pub proof fn lemma_state_name_parse(st: PipelineState)
    ensures
        state_from_name(state_name(st)) == Some(st),
{
    reveal_strlit("void_pending");
    reveal_strlit("voidpending");
    reveal_strlit("null");
    reveal_strlit("ready");
    reveal_strlit("paused");
    reveal_strlit("playing");
    lemma_ascii_ieq_refl(state_name(st));
}

/// Shared front of the round-trip proof: stripping the head and scanning
/// the tag of a serialized event.
proof fn lemma_parse_front(tag: Seq<char>, body: Seq<char>)
    ensures
        strip_lit(ev_head() + escape_str(tag) + q() + body, ev_head()) == Some(
            escape_str(tag) + q() + body,
        ),
        scan_string(escape_str(tag) + q() + body) == Some((tag, body)),
{
    lemma_strip_concat(ev_head(), escape_str(tag) + q() + body);
    assert(ev_head() + escape_str(tag) + q() + body =~= ev_head() + (escape_str(tag) + q()
        + body));
    reveal_strlit("\"");
    crate::json::lemma_scan_escaped(tag, body);
    assert(escape_str(tag) + q() + body =~= escape_str(tag) + seq!['"'] + body);
}

/// Shared middle of the round-trip proof: reading the id string out of a
/// body that starts with the id key.
proof fn lemma_parse_id(id: Seq<char>, rest: Seq<char>)
    ensures
        strip_lit(key_data_id() + escape_str(id) + q() + rest, key_data_id()) == Some(
            escape_str(id) + q() + rest,
        ),
        scan_string(escape_str(id) + q() + rest) == Some((id, rest)),
{
    lemma_strip_concat(key_data_id(), escape_str(id) + q() + rest);
    assert(key_data_id() + escape_str(id) + q() + rest =~= key_data_id() + (escape_str(id) + q()
        + rest));
    reveal_strlit("\"");
    crate::json::lemma_scan_escaped(id, rest);
    assert(escape_str(id) + q() + rest =~= escape_str(id) + seq!['"'] + rest);
}

/// Reading one more `<key>"<value>"` pair.
proof fn lemma_parse_pair(key: Seq<char>, v: Seq<char>, rest: Seq<char>)
    ensures
        strip_lit(key + escape_str(v) + q() + rest, key) == Some(escape_str(v) + q() + rest),
        scan_string(escape_str(v) + q() + rest) == Some((v, rest)),
{
    lemma_strip_concat(key, escape_str(v) + q() + rest);
    assert(key + escape_str(v) + q() + rest =~= key + (escape_str(v) + q() + rest));
    reveal_strlit("\"");
    crate::json::lemma_scan_escaped(v, rest);
    assert(escape_str(v) + q() + rest =~= escape_str(v) + seq!['"'] + rest);
}

/// The closing braces close: stripping them leaves nothing.
proof fn lemma_parse_end()
    ensures
        strip_lit(end_obj(), end_obj()) == Some(Seq::<char>::empty()),
{
    lemma_strip_concat(end_obj(), Seq::<char>::empty());
    assert(end_obj() + Seq::<char>::empty() =~= end_obj());
}

/// Law: every event round-trips through its wire form — parsing the
/// serialization of any event yields the event back, variant and fields
/// alike.
proof fn lemma_rt_state_changed(pipeline_id: Seq<char>, old_state: PipelineState, new_state: PipelineState)
    ensures
        parse_event_model(
            event_json(EventModel::StateChanged { pipeline_id, old_state, new_state }),
        ) == Some(EventModel::StateChanged { pipeline_id, old_state, new_state }),
{
    reveal_strlit("state_changed");
    let m = EventModel::StateChanged { pipeline_id, old_state, new_state };
    let tail2 = key_new_state() + escape_str(state_name(new_state)) + q() + end_obj();
    let tail1 = key_old_state() + escape_str(state_name(old_state)) + q() + tail2;
    let body = key_data_id() + escape_str(pipeline_id) + q() + tail1;
    lemma_parse_front("state_changed"@, body);
    assert(event_json(m) =~= ev_head() + escape_str("state_changed"@) + q() + body);
    lemma_parse_id(pipeline_id, tail1);
    assert(body =~= key_data_id() + escape_str(pipeline_id) + q() + tail1);
    lemma_parse_pair(key_old_state(), state_name(old_state), tail2);
    assert(tail1 =~= key_old_state() + escape_str(state_name(old_state)) + q() + tail2);
    lemma_parse_pair(key_new_state(), state_name(new_state), end_obj());
    assert(tail2 =~= key_new_state() + escape_str(state_name(new_state)) + q() + end_obj());
    lemma_parse_end();
    lemma_state_name_parse(old_state);
    lemma_state_name_parse(new_state);
}

#[verifier::rlimit(100)]
#[verifier::spinoff_prover]
proof fn lemma_rt_id_message(tag: int, pipeline_id: Seq<char>, message: Seq<char>)
    requires
        0 <= tag <= 1,
    ensures
        tag == 0 ==> parse_event_model(
            event_json(EventModel::Error { pipeline_id, message }),
        ) == Some(EventModel::Error { pipeline_id, message }),
        tag == 1 ==> parse_event_model(
            event_json(EventModel::Unsupported { pipeline_id, message }),
        ) == Some(EventModel::Unsupported { pipeline_id, message }),
{
    reveal_strlit("state_changed");
    reveal_strlit("error");
    reveal_strlit("unsupported");
    let tail1 = key_message() + escape_str(message) + q() + end_obj();
    let body = key_data_id() + escape_str(pipeline_id) + q() + tail1;
    if tag == 0 {
        let m = EventModel::Error { pipeline_id, message };
        lemma_parse_front("error"@, body);
        assert(event_json(m) =~= ev_head() + escape_str("error"@) + q() + body);
    } else {
        let m = EventModel::Unsupported { pipeline_id, message };
        lemma_parse_front("unsupported"@, body);
        assert(event_json(m) =~= ev_head() + escape_str("unsupported"@) + q() + body);
    }
    lemma_parse_id(pipeline_id, tail1);
    assert(body =~= key_data_id() + escape_str(pipeline_id) + q() + tail1);
    lemma_parse_pair(key_message(), message, end_obj());
    assert(tail1 =~= key_message() + escape_str(message) + q() + end_obj());
    lemma_parse_end();
}

#[verifier::rlimit(100)]
#[verifier::spinoff_prover]
proof fn lemma_rt_id_description(tag: int, pipeline_id: Seq<char>, description: Seq<char>)
    requires
        0 <= tag <= 1,
    ensures
        tag == 0 ==> parse_event_model(
            event_json(EventModel::PipelineAdded { pipeline_id, description }),
        ) == Some(EventModel::PipelineAdded { pipeline_id, description }),
        tag == 1 ==> parse_event_model(
            event_json(EventModel::PipelineUpdated { pipeline_id, description }),
        ) == Some(EventModel::PipelineUpdated { pipeline_id, description }),
{
    reveal_strlit("state_changed");
    reveal_strlit("error");
    reveal_strlit("unsupported");
    reveal_strlit("eos");
    reveal_strlit("pipeline_added");
    reveal_strlit("pipeline_updated");
    let tail1 = key_description() + escape_str(description) + q() + end_obj();
    let body = key_data_id() + escape_str(pipeline_id) + q() + tail1;
    if tag == 0 {
        let m = EventModel::PipelineAdded { pipeline_id, description };
        lemma_parse_front("pipeline_added"@, body);
        assert(event_json(m) =~= ev_head() + escape_str("pipeline_added"@) + q() + body);
    } else {
        let m = EventModel::PipelineUpdated { pipeline_id, description };
        lemma_parse_front("pipeline_updated"@, body);
        assert(event_json(m) =~= ev_head() + escape_str("pipeline_updated"@) + q() + body);
    }
    lemma_parse_id(pipeline_id, tail1);
    assert(body =~= key_data_id() + escape_str(pipeline_id) + q() + tail1);
    lemma_parse_pair(key_description(), description, end_obj());
    assert(tail1 =~= key_description() + escape_str(description) + q() + end_obj());
    lemma_parse_end();
}

#[verifier::rlimit(100)]
#[verifier::spinoff_prover]
proof fn lemma_rt_id_only(tag: int, pipeline_id: Seq<char>)
    requires
        0 <= tag <= 1,
    ensures
        tag == 0 ==> parse_event_model(event_json(EventModel::Eos { pipeline_id })) == Some(
            EventModel::Eos { pipeline_id },
        ),
        tag == 1 ==> parse_event_model(
            event_json(EventModel::PipelineRemoved { pipeline_id }),
        ) == Some(EventModel::PipelineRemoved { pipeline_id }),
{
    reveal_strlit("state_changed");
    reveal_strlit("error");
    reveal_strlit("unsupported");
    reveal_strlit("eos");
    reveal_strlit("pipeline_added");
    reveal_strlit("pipeline_updated");
    reveal_strlit("pipeline_removed");
    let body = key_data_id() + escape_str(pipeline_id) + q() + end_obj();
    if tag == 0 {
        let m = EventModel::Eos { pipeline_id };
        lemma_parse_front("eos"@, body);
        assert(event_json(m) =~= ev_head() + escape_str("eos"@) + q() + body);
    } else {
        let m = EventModel::PipelineRemoved { pipeline_id };
        lemma_parse_front("pipeline_removed"@, body);
        assert(event_json(m) =~= ev_head() + escape_str("pipeline_removed"@) + q() + body);
        assert("pipeline_removed"@ != "pipeline_updated"@) by {
            assert("pipeline_removed"@[9] != "pipeline_updated"@[9]);
        }
    }
    lemma_parse_id(pipeline_id, end_obj());
    assert(body =~= key_data_id() + escape_str(pipeline_id) + q() + end_obj());
    lemma_parse_end();
}

/// Law: every event round-trips through its wire form --- parsing the
/// serialization of any event yields the event back, variant and fields
/// alike.
pub proof fn lemma_event_round_trip(m: EventModel)
    ensures
        parse_event_model(event_json(m)) == Some(m),
{
    match m {
        EventModel::StateChanged { pipeline_id, old_state, new_state } => {
            lemma_rt_state_changed(pipeline_id, old_state, new_state);
        },
        EventModel::Error { pipeline_id, message } => {
            lemma_rt_id_message(0, pipeline_id, message);
        },
        EventModel::Unsupported { pipeline_id, message } => {
            lemma_rt_id_message(1, pipeline_id, message);
        },
        EventModel::Eos { pipeline_id } => {
            lemma_rt_id_only(0, pipeline_id);
        },
        EventModel::PipelineAdded { pipeline_id, description } => {
            lemma_rt_id_description(0, pipeline_id, description);
        },
        EventModel::PipelineUpdated { pipeline_id, description } => {
            lemma_rt_id_description(1, pipeline_id, description);
        },
        EventModel::PipelineRemoved { pipeline_id } => {
            lemma_rt_id_only(1, pipeline_id);
        },
    }
}

} // verus!
