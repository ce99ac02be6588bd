//! What an accepted request leads to.

use crate::error::{AppError, Refusal};
use crate::json::{obj, Fields, Json, JsonValue};
use crate::store::{changes, Change, Write};
use vstd::prelude::*;

verus! {

/// Something that connected clients are told.
pub enum Notice {
    /// Told to everyone who is subscribed.
    Broadcast(JsonValue),
    /// Told to one user.
    ToUser(String, JsonValue),
}

/// The model of a [`Notice`].
pub enum Packet {
    Broadcast(Json),
    ToUser(Seq<char>, Json),
}

impl View for Notice {
    type V = Packet;

    open spec fn view(&self) -> Packet {
        match self {
            Notice::Broadcast(v) => Packet::Broadcast(v@),
            Notice::ToUser(u, v) => Packet::ToUser(u@, v@),
        }
    }
}

/// The models of some notices.
pub open spec fn packets(notices: Seq<Notice>) -> Seq<Packet> {
    notices.map_values(|n: Notice| n@)
}

/// What an accepted request leads to: first the writes, in one transaction where
/// `atomic` says so, after them the notices, and at last the reply. Where the
/// last write turns out to change no row, the request is refused with
/// `unless_changed`, if that is given.
pub struct Outcome {
    pub atomic: bool,
    pub unless_changed: Option<AppError>,
    pub writes: Vec<Write>,
    pub notices: Vec<Notice>,
    pub reply: JsonValue,
}

/// The model of an [`Outcome`].
pub struct Effect {
    pub atomic: bool,
    pub unless_changed: Option<Refusal>,
    pub changes: Seq<Change>,
    pub notices: Seq<Packet>,
    pub reply: Json,
}

impl View for Outcome {
    type V = Effect;

    open spec fn view(&self) -> Effect {
        Effect {
            atomic: self.atomic,
            unless_changed: match self.unless_changed {
                Some(e) => Some(e@),
                None => None,
            },
            changes: changes(self.writes@),
            notices: packets(self.notices@),
            reply: self.reply@,
        }
    }
}

/// A reply alone.
pub open spec fn replying(reply: Json) -> Effect {
    Effect {
        atomic: false,
        unless_changed: None,
        changes: Seq::empty(),
        notices: Seq::empty(),
        reply,
    }
}

impl Effect {
    /// With one more change.
    pub open spec fn and_change(self, c: Change) -> Effect {
        Effect { changes: self.changes.push(c), ..self }
    }

    /// With one more notice to everyone.
    pub open spec fn and_broadcast(self, v: Json) -> Effect {
        Effect { notices: self.notices.push(Packet::Broadcast(v)), ..self }
    }

    /// With one more notice to one user.
    pub open spec fn and_tell(self, user: Seq<char>, v: Json) -> Effect {
        Effect { notices: self.notices.push(Packet::ToUser(user, v)), ..self }
    }

    /// Refused where the last change changes nothing.
    pub open spec fn or_refused(self, e: Refusal) -> Effect {
        Effect { unless_changed: Some(e), ..self }
    }

    /// With its changes in one transaction.
    pub open spec fn at_once(self) -> Effect {
        Effect { atomic: true, ..self }
    }
}

impl Outcome {
    /// A reply alone.
    pub fn replying(reply: JsonValue) -> (res: Outcome)
        ensures
            res@ == replying(reply@),
    {
        let res = Outcome {
            atomic: false,
            unless_changed: None,
            writes: Vec::new(),
            notices: Vec::new(),
            reply,
        };
        assert(res@.changes =~= Seq::<Change>::empty());
        assert(res@.notices =~= Seq::<Packet>::empty());
        res
    }

    /// With one more write.
    pub fn and_write(self, w: Write) -> (res: Outcome)
        ensures
            res@ == self@.and_change(w@),
    {
        let Outcome { atomic, unless_changed, mut writes, notices, reply } = self;
        writes.push(w);
        let res = Outcome { atomic, unless_changed, writes, notices, reply };
        assert(res@.changes =~= self@.changes.push(w@));
        res
    }

    /// With one more notice to everyone.
    pub fn and_broadcast(self, v: JsonValue) -> (res: Outcome)
        ensures
            res@ == self@.and_broadcast(v@),
    {
        let Outcome { atomic, unless_changed, writes, mut notices, reply } = self;
        notices.push(Notice::Broadcast(v));
        let res = Outcome { atomic, unless_changed, writes, notices, reply };
        assert(res@.notices =~= self@.notices.push(Packet::Broadcast(v@)));
        res
    }

    /// With one more notice to one user.
    pub fn and_tell(self, user: &str, v: JsonValue) -> (res: Outcome)
        ensures
            res@ == self@.and_tell(user@, v@),
    {
        let Outcome { atomic, unless_changed, writes, mut notices, reply } = self;
        notices.push(Notice::ToUser(user.to_owned(), v));
        let res = Outcome { atomic, unless_changed, writes, notices, reply };
        assert(res@.notices =~= self@.notices.push(Packet::ToUser(user@, v@)));
        res
    }

    /// Refused where the last write changes nothing.
    pub fn or_refused(self, e: AppError) -> (res: Outcome)
        ensures
            res@ == self@.or_refused(e@),
    {
        let Outcome { atomic, unless_changed, writes, notices, reply } = self;
        Outcome { atomic, unless_changed: Some(e), writes, notices, reply }
    }

    /// What is left to do once the writes are made and the last of them changed
    /// so many rows: the outcome itself, or the refusal that it holds ready.
    pub fn settled(self, rows_changed: u64) -> (res: Result<Outcome, AppError>)
        ensures
            told(res) == settled(self@, rows_changed),
    {
        let Outcome { atomic, unless_changed, writes, notices, reply } = self;
        match unless_changed {
            Some(e) if rows_changed == 0 => Err(e),
            other => Ok(Outcome { atomic, unless_changed: other, writes, notices, reply }),
        }
    }

    /// With its writes in one transaction.
    pub fn at_once(self) -> (res: Outcome)
        ensures
            res@ == self@.at_once(),
    {
        let Outcome { atomic, unless_changed, writes, notices, reply } = self;
        Outcome { atomic: true, unless_changed, writes, notices, reply }
    }
}

/// What is left of an effect whose last change changed so many rows.
pub open spec fn settled(effect: Effect, rows_changed: u64) -> Result<Effect, Refusal> {
    match effect.unless_changed {
        Some(e) if rows_changed == 0 => Err(e),
        _ => Ok(effect),
    }
}

/// The model of a result.
pub open spec fn told(r: Result<Outcome, AppError>) -> Result<Effect, Refusal> {
    match r {
        Ok(o) => Ok(o@),
        Err(e) => Err(e@),
    }
}

/// The reply `{"ok": true}`.
pub open spec fn ok_json() -> Json {
    obj().with("ok"@, Json::Bool(true)).json()
}

/// The reply `{"ok": true}`.
pub fn ok_reply() -> (res: JsonValue)
    ensures
        res@ == ok_json(),
{
    Fields::new().put_bool("ok", true).done()
}

/// A request whose last change changed nothing is refused where it says so, and
/// goes on as it is otherwise.
pub proof fn a_change_of_nothing_is_refused(effect: Effect, rows_changed: u64)
    ensures
        settled(effect, rows_changed) is Err <==> rows_changed == 0 && effect.unless_changed is Some,
        settled(effect, rows_changed) matches Ok(e) ==> e == effect,
        settled(effect, rows_changed) matches Err(e) ==> effect.unless_changed == Some(e),
{
}

} // verus!
