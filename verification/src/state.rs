//! The process-wide emulation state and its operations: callback
//! registration, the message-insertion pipeline, the control-rule registrar,
//! the single-slot log reader, the per-call error interceptor, and the
//! error-query override.
//!
//! Whenever a dispatched message has to reach the registered callback, the
//! entry points hand back a [`Delivery`] value; the surrounding binding layer
//! performs it by invoking the callback with the message and the stored
//! user context. The callback itself and its user context are opaque tokens
//! (`C` and `U`): the state stores and replays them unmodified.

use vstd::prelude::*;

use crate::enums::{
    is_valid_severity, is_valid_source, is_valid_type, valid_severity, valid_source, valid_type,
    DEBUG_SEVERITY_HIGH, DEBUG_SEVERITY_LOW,
    DEBUG_SOURCE_API, DEBUG_SOURCE_APPLICATION, DEBUG_SOURCE_THIRD_PARTY, DEBUG_TYPE_ERROR,
    DONT_CARE, INVALID_ENUM, INVALID_OPERATION, INVALID_VALUE, NO_ERROR,
};
use crate::errors::{
    control_shape_text, drain_bufsize_text, error_text, get_error_string, message_too_long_text,
    severity_invalid_text, source_invalid_text, type_invalid_text, user_source_restricted_text,
};
use crate::message::{
    lemma_sentinel_resolves_like_explicit, message_matches, message_wf, resolve_length,
    resolved_len, DebugMessage, MAX_DEBUG_MESSAGE_LENGTH,
};
use crate::rules::{rule_applies, rule_shape_ok, should_process_spec, ControlRule};
use vstd::string::StrSliceExecFns;

verus! {

/// A dispatch demand: the message must be handed to `callback`, together
/// with the opaque `context` registered beside it. The message is owned by
/// the delivery; it was not stored in the log.
pub struct Delivery<C, U> {
    pub callback: C,
    pub context: U,
    pub message: DebugMessage,
}

/// What the insertion pipeline did with a message.
pub enum InsertOutcome<C, U> {
    /// The master switch is off; the insertion was a silent no-op.
    Disabled,
    /// The message was rejected with the synthesized error `error`; the
    /// synthesized error message itself may in turn demand a delivery.
    Rejected { error: u32, report: Option<Delivery<C, U>> },
    /// A control rule (or the default policy) suppressed the message.
    Filtered,
    /// A callback is registered: the message must be delivered and is not
    /// stored.
    Delivered(Delivery<C, U>),
    /// No callback is registered: the message is now the sole occupant of
    /// the log slot.
    Stored,
}

/// The aggregate emulation state. One instance stands for one logical
/// connection to the underlying API.
pub struct EmulationState<C, U> {
    /// Master switch; when false, message insertion is a no-op.
    pub enabled: bool,
    /// Most recent synthetic error code, cleared on read.
    pub last_error: u32,
    /// Nesting counter for debug-group operations; rules record the value
    /// current at their registration.
    pub debug_group_depth: u32,
    /// Control rules in registration order; newest last.
    pub rules: Vec<ControlRule>,
    /// The single-slot message log: the most recent undelivered message.
    pub log: Option<DebugMessage>,
    /// The registered callback and its opaque user context.
    pub callback: Option<(C, U)>,
}

impl<C: Copy, U: Copy> EmulationState<C, U> {
    /// Every message held by the log satisfies the validity predicates and
    /// the maximum message length.
    pub open spec fn wf(self) -> bool {
        self.log matches Some(m) ==> message_wf(m)
    }

    /// Everything except the log slot and the last error is unchanged.
    pub open spec fn frame(pre: Self, post: Self) -> bool {
        &&& post.enabled == pre.enabled
        &&& post.debug_group_depth == pre.debug_group_depth
        &&& post.rules == pre.rules
        &&& post.callback == pre.callback
    }

    /// How filtering and dispatch treat the message with the given
    /// coordinates and text: a suppressed message changes nothing; a
    /// processed message is handed to the registered callback (`rep` carries
    /// the demand) and the log is untouched; with no callback it becomes the
    /// sole occupant of the log slot. The last error is not constrained
    /// here.
    pub open spec fn dispatch_post(pre: Self, post: Self, rep: Option<Delivery<C, U>>, source: u32, ty: u32, id: u32, severity: u32, text: Seq<char>) -> bool {
        &&& Self::frame(pre, post)
        &&& !should_process_spec(pre.rules@, source, ty, id, severity) ==> post.log == pre.log
            && rep is None
        &&& should_process_spec(pre.rules@, source, ty, id, severity) && pre.callback is Some
            ==> post.log == pre.log && (pre.callback matches Some(cu) && rep matches Some(d)
            && d.callback == cu.0 && d.context == cu.1 && message_matches(
            d.message,
            source,
            ty,
            id,
            severity,
            text,
        ))
        &&& should_process_spec(pre.rules@, source, ty, id, severity) && pre.callback is None
            ==> rep is None && (post.log matches Some(m) && message_matches(
            m,
            source,
            ty,
            id,
            severity,
            text,
        ))
    }

    /// The full effect of synthesizing the API error `error` with the given
    /// message text: the error code is recorded as the last error, and if
    /// the state is enabled the error message (source "API", type "error",
    /// severity "high", id equal to the code) runs through filtering and
    /// dispatch. A text over the maximum length is itself replaced by the
    /// fixed "message is too long" error.
    pub open spec fn report_post(pre: Self, post: Self, rep: Option<Delivery<C, U>>, error: u32, text: Seq<char>) -> bool {
        if !pre.enabled {
            &&& Self::frame(pre, post)
            &&& post.log == pre.log
            &&& post.last_error == error
            &&& rep is None
        } else if text.len() <= MAX_DEBUG_MESSAGE_LENGTH {
            &&& post.last_error == error
            &&& Self::dispatch_post(
                pre,
                post,
                rep,
                DEBUG_SOURCE_API,
                DEBUG_TYPE_ERROR,
                error,
                DEBUG_SEVERITY_HIGH,
                text,
            )
        } else {
            &&& post.last_error == INVALID_VALUE
            &&& Self::dispatch_post(
                pre,
                post,
                rep,
                DEBUG_SOURCE_API,
                DEBUG_TYPE_ERROR,
                INVALID_VALUE,
                DEBUG_SEVERITY_HIGH,
                message_too_long_text(),
            )
        }
    }

    /// The insertion was rejected with the synthesized error `code`, whose
    /// message carries `text`.
    pub open spec fn rejected_post(pre: Self, post: Self, r: InsertOutcome<C, U>, code: u32, text: Seq<char>) -> bool {
        r matches InsertOutcome::Rejected { error, report } && error == code
            && Self::report_post(pre, post, report, code, text)
    }

    /// The full contract of the insertion pipeline: early exit when
    /// disabled; validation of severity, type and source in that order, each
    /// failure synthesizing an "invalid enum" error; rejection of a message
    /// whose resolved length exceeds the maximum with an "invalid value"
    /// error; filtering against the control rules; and dispatch to the
    /// callback or into the log slot.
    pub open spec fn insert_post(pre: Self, post: Self, r: InsertOutcome<C, U>, source: u32, ty: u32, id: u32, severity: u32, length: int, buf: Seq<char>) -> bool {
        if !pre.enabled {
            post == pre && r is Disabled
        } else if !valid_severity(severity) {
            Self::rejected_post(pre, post, r, INVALID_ENUM, severity_invalid_text())
        } else if !valid_type(ty) {
            Self::rejected_post(pre, post, r, INVALID_ENUM, type_invalid_text())
        } else if !valid_source(source) {
            Self::rejected_post(pre, post, r, INVALID_ENUM, source_invalid_text())
        } else if resolved_len(length, buf) > MAX_DEBUG_MESSAGE_LENGTH {
            Self::rejected_post(pre, post, r, INVALID_VALUE, message_too_long_text())
        } else if !should_process_spec(pre.rules@, source, ty, id, severity) {
            post == pre && r is Filtered
        } else if pre.callback is Some {
            &&& post == pre
            &&& pre.callback matches Some(cu) && r matches InsertOutcome::Delivered(d)
                && d.callback == cu.0 && d.context == cu.1 && message_matches(
                d.message,
                source,
                ty,
                id,
                severity,
                buf.take(resolved_len(length, buf)),
            )
        } else {
            &&& Self::frame(pre, post)
            &&& post.last_error == pre.last_error
            &&& r is Stored
            &&& post.log matches Some(m) && message_matches(
                m,
                source,
                ty,
                id,
                severity,
                buf.take(resolved_len(length, buf)),
            )
        }
    }

    /// A fresh state: enabled, no pending error, no rules, an empty log and
    /// no callback.
    pub fn new() -> (r: Self)
        ensures
            r.enabled,
            r.last_error == NO_ERROR,
            r.debug_group_depth == 0,
            r.rules@ == Seq::<ControlRule>::empty(),
            r.log is None,
            r.callback is None,
            r.wf(),
    {
        EmulationState {
            enabled: true,
            last_error: NO_ERROR,
            debug_group_depth: 0,
            rules: Vec::new(),
            log: None,
            callback: None,
        }
    }

    /// Registers `callback` with its opaque `context`; both are stored
    /// unmodified and replayed on every subsequent dispatch.
    pub fn set_callback(&mut self, callback: C, context: U)
        ensures
            final(self).enabled == old(self).enabled,
            final(self).last_error == old(self).last_error,
            final(self).debug_group_depth == old(self).debug_group_depth,
            final(self).rules == old(self).rules,
            final(self).log == old(self).log,
            final(self).callback == Some((callback, context)),
            old(self).wf() ==> final(self).wf(),
    {
        self.callback = Some((callback, context));
    }

    /// The filtering decision for a message: scan the rules from newest to
    /// oldest and take the `enabled` flag of the first one that applies;
    /// with no applicable rule, suppress exactly severity "low".
    pub fn should_process(&self, source: u32, ty: u32, id: u32, severity: u32) -> (r: bool)
        ensures
            r == should_process_spec(self.rules@, source, ty, id, severity),
    {
        let n = self.rules.len();
        proof {
            assert(self.rules@.take(n as int) =~= self.rules@);
        }
        let mut i: usize = n;
        while i > 0
            invariant
                i <= n,
                n == self.rules@.len(),
                should_process_spec(self.rules@, source, ty, id, severity)
                    == should_process_spec(
                    self.rules@.take(i as int),
                    source,
                    ty,
                    id,
                    severity,
                ),
            decreases i,
        {
            i -= 1;
            proof {
                assert(self.rules@.take(i as int + 1).last() == self.rules@[i as int]);
                assert(self.rules@.take(i as int + 1).drop_last() =~= self.rules@.take(i as int));
            }
            if rule_applies(&self.rules[i], source, ty, id, severity) {
                return self.rules[i].enabled;
            }
        }
        proof {
            assert(self.rules@.take(0) =~= Seq::<ControlRule>::empty());
        }
        severity != DEBUG_SEVERITY_LOW
    }

    /// Dispatch of an already validated and filtered message: hand it to the
    /// registered callback (as a delivery demand), or store it as the sole
    /// occupant of the log slot.
    fn deliver_or_store(&mut self, message: DebugMessage) -> (rep: Option<Delivery<C, U>>)
        requires
            message_wf(message),
        ensures
            Self::frame(*old(self), *final(self)),
            final(self).last_error == old(self).last_error,
            old(self).callback matches Some(cu) ==> final(self).log == old(self).log && (
            rep matches Some(d) && d.callback == cu.0 && d.context == cu.1 && d.message
                == message),
            old(self).callback is None ==> rep is None && final(self).log == Some(message),
            old(self).wf() ==> final(self).wf(),
    {
        match self.callback {
            Some((callback, context)) => Some(Delivery { callback, context, message }),
            None => {
                self.log = Some(message);
                None
            },
        }
    }

    /// Synthesizes the API error `error` carrying `message`: records it as
    /// the last error and, when enabled, runs the error message through
    /// filtering and dispatch (replacing an over-long text by the fixed
    /// "message is too long" error).
    fn report_api_error(&mut self, error: u32, message: &str) -> (rep: Option<Delivery<C, U>>)
        ensures
            Self::report_post(*old(self), *final(self), rep, error, message@),
            old(self).wf() ==> final(self).wf(),
    {
        self.last_error = error;
        if !self.enabled {
            return None;
        }
        if message.unicode_len() > MAX_DEBUG_MESSAGE_LENGTH {
            self.last_error = INVALID_VALUE;
            let notice = "invalid value in glDebugMessageInsert: message is too long";
            proof {
                reveal_strlit("invalid value in glDebugMessageInsert: message is too long");
            }
            if self.should_process(
                DEBUG_SOURCE_API,
                DEBUG_TYPE_ERROR,
                INVALID_VALUE,
                DEBUG_SEVERITY_HIGH,
            ) {
                let msg = DebugMessage {
                    source: DEBUG_SOURCE_API,
                    ty: DEBUG_TYPE_ERROR,
                    id: INVALID_VALUE,
                    severity: DEBUG_SEVERITY_HIGH,
                    text: notice.to_owned(),
                };
                return self.deliver_or_store(msg);
            }
            return None;
        }
        if self.should_process(DEBUG_SOURCE_API, DEBUG_TYPE_ERROR, error, DEBUG_SEVERITY_HIGH) {
            let msg = DebugMessage {
                source: DEBUG_SOURCE_API,
                ty: DEBUG_TYPE_ERROR,
                id: error,
                severity: DEBUG_SEVERITY_HIGH,
                text: message.to_owned(),
            };
            return self.deliver_or_store(msg);
        }
        None
    }

    /// The insertion pipeline (the internal entry point, open to every
    /// source): validate severity, type and source in that order, resolve
    /// the length-or-sentinel, reject an over-long message, filter against
    /// the control rules, and dispatch to the callback or into the log.
    pub fn insert_message(&mut self, source: u32, ty: u32, id: u32, severity: u32, length: i32, buf: &str) -> (r: InsertOutcome<C, U>)
        requires
            length >= 0 ==> length as int <= buf@.len(),
            length < 0 ==> buf@.contains('\0'),
        ensures
            Self::insert_post(
                *old(self),
                *final(self),
                r,
                source,
                ty,
                id,
                severity,
                length as int,
                buf@,
            ),
            old(self).wf() ==> final(self).wf(),
    {
        if !self.enabled {
            return InsertOutcome::Disabled;
        }
        if !is_valid_severity(severity) {
            let report = self.report_api_error(
                INVALID_ENUM,
                "invalid enum in glDebugMessageInsert: severity is invalid",
            );
            return InsertOutcome::Rejected { error: INVALID_ENUM, report };
        }
        if !is_valid_type(ty) {
            let report = self.report_api_error(
                INVALID_ENUM,
                "invalid enum in glDebugMessageInsert: type is invalid",
            );
            return InsertOutcome::Rejected { error: INVALID_ENUM, report };
        }
        if !is_valid_source(source) {
            let report = self.report_api_error(
                INVALID_ENUM,
                "invalid enum in glDebugMessageInsert: source is invalid",
            );
            return InsertOutcome::Rejected { error: INVALID_ENUM, report };
        }
        let rlen = resolve_length(length, buf);
        if rlen > MAX_DEBUG_MESSAGE_LENGTH {
            let report = self.report_api_error(
                INVALID_VALUE,
                "invalid value in glDebugMessageInsert: message is too long",
            );
            return InsertOutcome::Rejected { error: INVALID_VALUE, report };
        }
        if !self.should_process(source, ty, id, severity) {
            return InsertOutcome::Filtered;
        }
        let text = buf.substring_char(0, rlen).to_owned();
        let message = DebugMessage { source, ty, id, severity, text };
        match self.deliver_or_store(message) {
            Some(d) => InsertOutcome::Delivered(d),
            None => InsertOutcome::Stored,
        }
    }

    /// The application-facing insertion entry point: as the pipeline, but a
    /// source other than "application" or "third-party" is rejected with an
    /// "invalid enum" error before the message is considered at all.
    pub fn insert_user_message(&mut self, source: u32, ty: u32, id: u32, severity: u32, length: i32, buf: &str) -> (r: InsertOutcome<C, U>)
        requires
            length >= 0 ==> length as int <= buf@.len(),
            length < 0 ==> buf@.contains('\0'),
        ensures
            old(self).enabled && source != DEBUG_SOURCE_APPLICATION && source
                != DEBUG_SOURCE_THIRD_PARTY ==> Self::rejected_post(
                *old(self),
                *final(self),
                r,
                INVALID_ENUM,
                user_source_restricted_text(),
            ),
            !(old(self).enabled && source != DEBUG_SOURCE_APPLICATION && source
                != DEBUG_SOURCE_THIRD_PARTY) ==> Self::insert_post(
                *old(self),
                *final(self),
                r,
                source,
                ty,
                id,
                severity,
                length as int,
                buf@,
            ),
            old(self).wf() ==> final(self).wf(),
    {
        if !self.enabled {
            return InsertOutcome::Disabled;
        }
        if source != DEBUG_SOURCE_APPLICATION && source != DEBUG_SOURCE_THIRD_PARTY {
            let report = self.report_api_error(
                INVALID_ENUM,
                "invalid enum in glDebugMessageInsert: source has to be GL_DEBUG_SOURCE_APPLICATION or GL_DEBUG_SOURCE_THIRD_PARTY",
            );
            return InsertOutcome::Rejected { error: INVALID_ENUM, report };
        }
        self.insert_message(source, ty, id, severity, length, buf)
    }

    /// Registers a control rule. An id-scoped rule that leaves source or
    /// type as wildcards, or pins a severity, is reported as an "invalid
    /// operation" error — but the rule is registered all the same, tagged
    /// with the current debug-group counter.
    pub fn control_messages(&mut self, source: u32, ty: u32, severity: u32, ids: Vec<u32>, enabled: bool) -> (rep: Option<Delivery<C, U>>)
        ensures
            final(self).rules@.len() == old(self).rules@.len() + 1,
            final(self).rules@.drop_last() == old(self).rules@,
            final(self).rules@.last() == (ControlRule {
                source,
                ty,
                severity,
                ids,
                enabled,
                debug_group: old(self).debug_group_depth,
            }),
            final(self).enabled == old(self).enabled,
            final(self).debug_group_depth == old(self).debug_group_depth,
            final(self).callback == old(self).callback,
            rule_shape_ok(source, ty, severity, ids@) ==> final(self).last_error == old(
                self,
            ).last_error && final(self).log == old(self).log && rep is None,
            !rule_shape_ok(source, ty, severity, ids@) ==> Self::report_post(
                *old(self),
                (EmulationState {
                    enabled: final(self).enabled,
                    last_error: final(self).last_error,
                    debug_group_depth: final(self).debug_group_depth,
                    rules: old(self).rules,
                    log: final(self).log,
                    callback: final(self).callback,
                }),
                rep,
                INVALID_OPERATION,
                control_shape_text(),
            ),
            old(self).wf() ==> final(self).wf(),
    {
        let rep: Option<Delivery<C, U>> = if ids.len() > 0 && (source == DONT_CARE || ty
            == DONT_CARE || severity != DONT_CARE) {
            self.report_api_error(
                INVALID_OPERATION,
                "invalid operation in glDebugMessageControl: if an ID is specified, source and type have to be specified as well but severity has to be GL_DONT_CARE",
            )
        } else {
            None
        };
        let debug_group = self.debug_group_depth;
        let rule = ControlRule { source, ty, severity, ids, enabled, debug_group };
        self.rules.push(rule);
        proof {
            assert(self.rules@.drop_last() =~= old(self).rules@);
        }
        rep
    }

    /// Drains the single log slot into the caller-supplied output fields
    /// (`None` stands for an output the caller did not supply). A negative
    /// text-buffer capacity with a supplied text output is an "invalid
    /// value" error. When a message is present and wanted, its coordinates
    /// and length are written to the supplied outputs; the text itself is
    /// copied only if `buffer_capacity` leaves room for the text and a
    /// terminator — if it does not, the message is lost and the call
    /// reports nothing, by the extension's own mandate. Returns how many
    /// messages were drained (0 or 1) and the delivery demand of the error
    /// report, if any.
    pub fn drain_log(&mut self, max_count: u32, buffer_capacity: i32, out_sources: &mut Option<u32>, out_types: &mut Option<u32>, out_ids: &mut Option<u32>, out_severities: &mut Option<u32>, out_lengths: &mut Option<i32>, out_text: &mut Option<String>) -> (r: (u32, Option<Delivery<C, U>>))
        requires
            old(self).wf(),
        ensures
            final(self).wf(),
            buffer_capacity < 0 && *old(out_text) is Some ==> {
                &&& r.0 == 0
                &&& Self::report_post(*old(self), *final(self), r.1, INVALID_VALUE, drain_bufsize_text())
                &&& *final(out_sources) == *old(out_sources)
                &&& *final(out_types) == *old(out_types)
                &&& *final(out_ids) == *old(out_ids)
                &&& *final(out_severities) == *old(out_severities)
                &&& *final(out_lengths) == *old(out_lengths)
                &&& *final(out_text) == *old(out_text)
            },
            !(buffer_capacity < 0 && *old(out_text) is Some) && (max_count == 0 || old(self).log is None) ==> {
                &&& r.0 == 0
                &&& r.1 is None
                &&& *final(self) == *old(self)
                &&& *final(out_sources) == *old(out_sources)
                &&& *final(out_types) == *old(out_types)
                &&& *final(out_ids) == *old(out_ids)
                &&& *final(out_severities) == *old(out_severities)
                &&& *final(out_lengths) == *old(out_lengths)
                &&& *final(out_text) == *old(out_text)
            },
            old(self).log is Some && !(buffer_capacity < 0 && *old(out_text) is Some) && max_count > 0 ==> ({
                let m = old(self).log->Some_0;
                &&& Self::frame(*old(self), *final(self))
                &&& final(self).last_error == old(self).last_error
                &&& final(self).log is None
                &&& r.1 is None
                &&& *final(out_sources) == (if *old(out_sources) is Some { Some(m.source) } else { None::<u32> })
                &&& *final(out_types) == (if *old(out_types) is Some { Some(m.ty) } else { None::<u32> })
                &&& *final(out_ids) == (if *old(out_ids) is Some { Some(m.id) } else { None::<u32> })
                &&& *final(out_severities) == (if *old(out_severities) is Some { Some(m.severity) } else { None::<u32> })
                &&& *final(out_lengths) == (if *old(out_lengths) is Some { Some(m.text@.len() as i32) } else { None::<i32> })
                &&& if buffer_capacity <= m.text@.len() {
                    r.0 == 0 && *final(out_text) == *old(out_text)
                } else {
                    &&& r.0 == 1
                    &&& *old(out_text) is Some ==> (*final(out_text) matches Some(s) && s@ == m.text@)
                    &&& *old(out_text) is None ==> *final(out_text) is None
                }
            }),
    {
        if buffer_capacity < 0 && out_text.is_some() {
            let rep = self.report_api_error(
                INVALID_VALUE,
                "invalid value in glGetDebugMessageLog: bufsize < 0 and messageLog != NULL",
            );
            return (0, rep);
        }
        if max_count == 0 {
            return (0, None);
        }
        let taken = self.log.take();
        match taken {
            None => (0, None),
            Some(message) => {
                if out_sources.is_some() {
                    *out_sources = Some(message.source);
                }
                if out_types.is_some() {
                    *out_types = Some(message.ty);
                }
                if out_ids.is_some() {
                    *out_ids = Some(message.id);
                }
                if out_severities.is_some() {
                    *out_severities = Some(message.severity);
                }
                let len = message.text.as_str().unicode_len();
                if out_lengths.is_some() {
                    *out_lengths = Some(len as i32);
                }
                if buffer_capacity <= len as i32 {
                    return (0, None);
                }
                if out_text.is_some() {
                    *out_text = Some(message.text);
                }
                (1, None)
            },
        }
    }

    /// The error-query override: report the native error if it is
    /// non-trivial, otherwise the pending synthetic error; either way the
    /// pending synthetic error is cleared, so it surfaces exactly once.
    pub fn get_last_error(&mut self, native_error: u32) -> (r: u32)
        ensures
            r == (if native_error != NO_ERROR {
                native_error
            } else {
                old(self).last_error
            }),
            final(self).last_error == NO_ERROR,
            final(self).enabled == old(self).enabled,
            final(self).debug_group_depth == old(self).debug_group_depth,
            final(self).rules == old(self).rules,
            final(self).log == old(self).log,
            final(self).callback == old(self).callback,
            old(self).wf() ==> final(self).wf(),
    {
        let mut current_error = native_error;
        if current_error == NO_ERROR {
            current_error = self.last_error;
        }
        self.last_error = NO_ERROR;
        current_error
    }

    /// The per-call hook: `native_error` is what the underlying API's error
    /// query reported after the named call. A non-trivial error is recorded
    /// and translated into a debug message ("<phrase> in <name>") that runs
    /// through the ordinary pipeline.
    pub fn on_fn_called(&mut self, name: &str, native_error: u32) -> (rep: Option<Delivery<C, U>>)
        ensures
            native_error == NO_ERROR ==> *final(self) == *old(self) && rep is None,
            native_error != NO_ERROR ==> Self::report_post(
                *old(self),
                *final(self),
                rep,
                native_error,
                error_text(native_error, name@),
            ),
            old(self).wf() ==> final(self).wf(),
    {
        if native_error == NO_ERROR {
            return None;
        }
        let text = get_error_string(native_error, name);
        self.report_api_error(native_error, text.as_str())
    }

    /// Length sentinel law: inserting with the sentinel on a buffer whose
    /// first terminator stands at position `n` is governed by exactly the
    /// same contract as inserting with the explicit length `n` — the same
    /// outcome, the same stored or dispatched message, the same state.
    pub proof fn lemma_insert_sentinel_equivalence(pre: Self, post: Self, r: InsertOutcome<C, U>, source: u32, ty: u32, id: u32, severity: u32, n: int, buf: Seq<char>)
        requires
            0 <= n < buf.len(),
            buf[n] == '\0',
            forall|k: int| 0 <= k < n ==> buf[k] != '\0',
        ensures
            Self::insert_post(pre, post, r, source, ty, id, severity, -1, buf)
                == Self::insert_post(pre, post, r, source, ty, id, severity, n, buf),
    {
        lemma_sentinel_resolves_like_explicit(buf, n);
    }
}

} // verus!
