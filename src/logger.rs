use vstd::prelude::*;
use vstd::utf8::encode_utf8;
use crate::buffer::{append_pieces, utf8_pieces, BufWriter};
use crate::level::{enabled_spec, is_enabled, Level, LevelFilter};
use crate::record::{Record, ShowFlags};
use crate::render::{
    lemma_location_extends, location_info, opt_utf8, put3, write_bracketed, write_location, CLOSE,
    OPEN,
};

verus! {

/// Capacity of the message buffer, terminator included.
pub const MSG_SIZE: usize = 512;

/// Capacity of the info buffer, terminator included.
pub const INFO_SIZE: usize = 64;

/// The backend's token for a sink bound to a context, as an address-sized
/// integer. The library only carries it.
#[derive(Debug, Clone, Copy, PartialEq, Eq, Structural)]
pub struct InstanceHandle {
    pub id: usize,
}

/// The backend entry-point family an event goes to. Each exists once per
/// level.
#[derive(Debug, Clone, Copy, PartialEq, Eq, Structural)]
pub enum Verb {
    /// Stateless, message only.
    Emit,
    /// Stateless, message and context tag.
    EmitCtx,
    /// Stateless, info string and message.
    EmitInfo,
    /// Stateless, info string, message and context tag.
    EmitInfoCtx,
    /// Through an instance, message only.
    EmitOn,
    /// Through an instance, info string and message.
    EmitInfoOn,
}

impl Verb {
    pub open spec fn takes_info(self) -> bool {
        self == Verb::EmitInfo || self == Verb::EmitInfoCtx || self == Verb::EmitInfoOn
    }

    pub open spec fn takes_context(self) -> bool {
        self == Verb::EmitCtx || self == Verb::EmitInfoCtx
    }

    pub open spec fn takes_instance(self) -> bool {
        self == Verb::EmitOn || self == Verb::EmitInfoOn
    }
}

/// The routing table. Through an instance, an event's context tag cannot be
/// handed over on its own, so it goes into the info string and the
/// instance-with-info family is used.
pub open spec fn verb_for(show_location: bool, has_instance: bool, has_context: bool) -> Verb {
    if has_instance {
        if show_location || has_context {
            Verb::EmitInfoOn
        } else {
            Verb::EmitOn
        }
    } else {
        match (show_location, has_context) {
            (false, false) => Verb::Emit,
            (false, true) => Verb::EmitCtx,
            (true, false) => Verb::EmitInfo,
            (true, true) => Verb::EmitInfoCtx,
        }
    }
}

/// Picks the entry-point family for an event.
pub fn select_verb(show_location: bool, has_instance: bool, has_context: bool) -> (r: Verb)
    ensures
        r == verb_for(show_location, has_instance, has_context),
{
    if has_instance {
        if show_location || has_context {
            Verb::EmitInfoOn
        } else {
            Verb::EmitOn
        }
    } else if show_location {
        if has_context {
            Verb::EmitInfoCtx
        } else {
            Verb::EmitInfo
        }
    } else if has_context {
        Verb::EmitCtx
    } else {
        Verb::Emit
    }
}

/// One backend call, ready to be made: the entry point is the `verb` family
/// at `level`; `info`, `context` and `instance` are passed only where the
/// family takes them.
pub struct Dispatch {
    pub level: Level,
    pub verb: Verb,
    pub instance: Option<InstanceHandle>,
    pub info: BufWriter<INFO_SIZE>,
    pub message: BufWriter<MSG_SIZE>,
    pub context: Option<String>,
}

impl Dispatch {
    pub open spec fn wf(&self) -> bool {
        &&& self.info.wf()
        &&& self.message.wf()
        &&& self.verb.takes_instance() <==> self.instance is Some
        &&& self.verb.takes_context() <==> self.context is Some
        &&& !self.verb.takes_info() ==> self.info@.len() == 0
    }
}

/// The message as the buffer holds it: the pieces in order, up to the first
/// that no longer fits.
pub open spec fn message_bytes(record: &Record) -> Seq<u8> {
    append_pieces(Seq::empty(), utf8_pieces(record.message@), BufWriter::<MSG_SIZE>::room())
}

/// The info string: the event's context tag in brackets where it is folded
/// in, then the bracketed location where any part of it is shown.
pub open spec fn info_bytes(show: ShowFlags, record: &Record, fold_context: bool) -> Seq<u8> {
    let room = BufWriter::<INFO_SIZE>::room();
    let c0 = if fold_context && record.context_id is Some {
        put3(Seq::empty(), seq![OPEN], encode_utf8(record.context_id->0@), seq![CLOSE], room)
    } else {
        Seq::empty()
    };
    if show.any_spec() {
        location_info(c0, show, opt_utf8(record.module), opt_utf8(record.file), record.line, room)
    } else {
        c0
    }
}

/// A configured adapter: its threshold, which location parts it renders, and
/// the backend instance it was built with.
#[derive(Debug, Clone, Copy, PartialEq, Eq, Structural)]
pub struct MwLogger {
    pub level: LevelFilter,
    pub show: ShowFlags,
    pub instance: InstanceHandle,
}

impl MwLogger {
    /// The backend call this logger makes for `record`, or none when the
    /// record's level is filtered out. `via_instance` says whether the caller
    /// named this logger for the event, so that it goes through its instance,
    /// or reached it as the process default, so that the stateless families
    /// are used.
    pub open spec fn dispatch_spec(
        &self,
        record: &Record,
        via_instance: bool,
        d: Dispatch,
    ) -> bool {
        let has_context = record.context_id is Some;
        let verb = verb_for(self.show.any_spec(), via_instance, has_context);
        &&& d.wf()
        &&& d.level == record.level
        &&& d.verb == verb
        &&& d.message@ == message_bytes(record)
        &&& d.instance == (if via_instance { Some(self.instance) } else { None })
        &&& d.context == (if verb.takes_context() { record.context_id } else { None })
        &&& verb.takes_info() ==> d.info@ == info_bytes(self.show, record, via_instance)
    }

    /// Whether an event at `level` passes this logger's threshold.
    pub fn enabled(&self, level: Level) -> (r: bool)
        ensures
            r == enabled_spec(level, self.level),
    {
        is_enabled(level, self.level)
    }

    /// Renders `record` into fixed buffers and picks the backend call.
    pub fn log(&self, record: &Record, via_instance: bool) -> (r: Option<Dispatch>)
        ensures
            r is None <==> !enabled_spec(record.level, self.level),
            r matches Some(d) ==> self.dispatch_spec(record, via_instance, d),
    {
        if !self.enabled(record.level) {
            return None;
        }
        let mut message = BufWriter::<MSG_SIZE>::new();
        let _ = message.write_pieces(record.message.as_slice());
        let has_context = record.context_id.is_some();
        let show_location = self.show.any();
        let verb = select_verb(show_location, via_instance, has_context);
        let mut info = BufWriter::<INFO_SIZE>::new();
        if verb == Verb::EmitInfo || verb == Verb::EmitInfoCtx || verb == Verb::EmitInfoOn {
            if via_instance {
                if let Some(c) = &record.context_id {
                    write_bracketed(&mut info, c.as_str());
                }
            }
            if show_location {
                write_location(&mut info, self.show, &record.module, &record.file, record.line);
            }
        }
        let context = if verb == Verb::EmitCtx || verb == Verb::EmitInfoCtx {
            match &record.context_id {
                Some(c) => Some(c.clone()),
                None => None,
            }
        } else {
            None
        };
        let instance = if via_instance {
            Some(self.instance)
        } else {
            None
        };
        Some(Dispatch { level: record.level, verb, instance, info, message, context })
    }
}

} // verus!

verus! {

/// The routing table, whole: without an instance each combination of
/// location and context has its own stateless family; through an instance,
/// the plain family is used only when there is neither location nor context,
/// and the instance-with-info family otherwise. The level plays no part in the
/// choice of family and is passed on unchanged; through an instance, the
/// event's context tag is never passed on its own but opens the info string,
/// in brackets, whenever that fits.
pub proof fn lemma_routing_table(logger: MwLogger, record: Record, via_instance: bool, d: Dispatch)
    requires
        logger.dispatch_spec(&record, via_instance, d),
    ensures
        verb_for(false, false, false) == Verb::Emit,
        verb_for(false, false, true) == Verb::EmitCtx,
        verb_for(true, false, false) == Verb::EmitInfo,
        verb_for(true, false, true) == Verb::EmitInfoCtx,
        verb_for(false, true, false) == Verb::EmitOn,
        verb_for(true, true, false) == Verb::EmitInfoOn,
        verb_for(false, true, true) == Verb::EmitInfoOn,
        verb_for(true, true, true) == Verb::EmitInfoOn,
        d.level == record.level,
        d.verb == verb_for(logger.show.any_spec(), via_instance, record.context_id is Some),
        via_instance <==> d.instance == Some(logger.instance),
        via_instance && record.context_id is Some ==> {
            let tag = encode_utf8(record.context_id->0@);
            &&& d.verb == Verb::EmitInfoOn
            &&& d.context is None
            &&& tag.len() + 2 <= BufWriter::<INFO_SIZE>::room() ==> d.info@.subrange(0, tag.len() as int + 2)
                == seq![OPEN] + tag + seq![CLOSE]
        },
{
    if via_instance && record.context_id is Some {
        let tag = encode_utf8(record.context_id->0@);
        let room = BufWriter::<INFO_SIZE>::room();
        if tag.len() + 2 <= room {
            let c0 = put3(Seq::empty(), seq![OPEN], tag, seq![CLOSE], room);
            assert(c0 =~= seq![OPEN] + tag + seq![CLOSE]);
            if logger.show.any_spec() {
                lemma_location_extends(
                    c0,
                    logger.show,
                    opt_utf8(record.module),
                    opt_utf8(record.file),
                    record.line,
                    room,
                );
            }
            assert(d.info@.subrange(0, tag.len() as int + 2) =~= c0);
        }
    }
}

} // verus!
