//! The playback handle: one native engine instance with an explicit
//! lifecycle, an attached-surface flag, and operations that each translate
//! to engine calls answering with signed status codes.
//!
//! The native calls happen outside the verified core.  Every method here is
//! the decision half of one operation: it takes the status codes the engine
//! answered with, translates them into structured results, and advances the
//! handle's state.

use vstd::prelude::*;
use vstd::string::StringExecFns;
use crate::cache::binding_view;
use crate::errors::{attach_failed_message, check_err, MpvError};
use crate::symbols::SymbolTableShape;
use crate::text::{check_encodable, dec_str, encodable, status_str};

verus! {

/// Where a handle stands in its life: created but not yet initialized,
/// initialized and accepting playback commands, or shut down — terminal,
/// the native instance destroyed.
#[derive(Clone, Copy, PartialEq, Eq, Structural, Debug)]
pub enum Lifecycle {
    Created,
    Initialized,
    Shutdown,
}

/// One native engine instance.  The opaque instance pointer lives with the
/// driver; this is everything the adapter decides with: the lifecycle state
/// and whether a display surface has been attached.  The attached flag is
/// set only by a successful surface attachment and never reset.
#[derive(Clone, Copy, PartialEq, Eq, Structural, Debug)]
pub struct MpvHandle {
    pub state: Lifecycle,
    pub attached: bool,
}

/// What the factory comes to: no table (with the memoized resolution or
/// binding failure), a null instance from the engine's create entry point,
/// or a fresh handle together with the flag saying whether the optional
/// log-suppression call should follow.
#[verifier::ext_equal]
pub ghost enum CreateModel {
    NoTable(Seq<char>),
    NullInstance,
    Ready(MpvHandle, bool),
}

/// The factory's decision as a function of the memoized binding outcome
/// and whether the engine returned a null instance.
pub open spec fn create_spec(
    table: Result<SymbolTableShape, Seq<char>>,
    instance_null: bool,
) -> CreateModel {
    match table {
        Result::Err(e) => CreateModel::NoTable(e),
        Result::Ok(t) => if instance_null {
            CreateModel::NullInstance
        } else {
            CreateModel::Ready(
                MpvHandle { state: Lifecycle::Created, attached: false },
                t.has_set_log_level,
            )
        },
    }
}

/// What attaching the playback surface comes to, given the two status
/// codes of the negotiation: the option attempt and the property attempt
/// (always both made, with the same 64-bit window id).  The operation
/// succeeds when either reported success — the property attempt is a
/// fallback when the option failed, and a redundant confirmation whose
/// failure is ignored when the option succeeded.  Only when both fail does
/// it fail, keeping both codes and the window id; the attached flag is set
/// exactly on success.
pub open spec fn attach_spec(
    h: MpvHandle,
    window_id: u32,
    option_status: i32,
    property_status: i32,
) -> (MpvHandle, Result<(), MpvError>) {
    if option_status >= 0 || property_status >= 0 {
        (MpvHandle { attached: true, ..h }, Result::Ok(()))
    } else {
        (h, Result::Err(MpvError::AttachFailed { option_status, property_status, window_id }))
    }
}

/// Shutting down: the state becomes terminal, and the native destroy call
/// is owed exactly when the handle was not already shut down.
pub open spec fn shutdown_spec(h: MpvHandle) -> (MpvHandle, bool) {
    (MpvHandle { state: Lifecycle::Shutdown, ..h }, h.state != Lifecycle::Shutdown)
}

/// Creates a handle for a fresh native instance.  `table` is the memoized
/// binding outcome; `instance_null` says whether the engine's create entry
/// point returned null.  On success the second component tells the driver
/// whether to make the best-effort log-suppression call (present entry
/// point only); that call's own failure is swallowed and needs no decision.
pub fn create(table: &Result<SymbolTableShape, String>, instance_null: bool) -> (r: Result<
    (MpvHandle, bool),
    MpvError,
>)
    ensures
        create_spec(binding_view(*table), instance_null) matches CreateModel::NoTable(reason)
            ==> (r matches Err(e) && e matches MpvError::Unavailable { reason: s } && s@
            == reason),
        create_spec(binding_view(*table), instance_null) is NullInstance ==> (r matches Err(e)
            && e is CreateFailed),
        create_spec(binding_view(*table), instance_null) matches CreateModel::Ready(h, quiet)
            ==> (r matches Ok(p) && p.0 == h && p.1 == quiet),
{
    match table {
        Err(e) => Err(MpvError::Unavailable { reason: e.clone() }),
        Ok(t) => {
            if instance_null {
                Err(MpvError::CreateFailed)
            } else {
                Ok((MpvHandle { state: Lifecycle::Created, attached: false }, t.has_set_log_level))
            }
        },
    }
}

/// The baseline option key at position `i` of the initialization sequence.
pub open spec fn option_key_spec(i: int) -> Seq<char> {
    if i == 0 {
        "force-window"@
    } else if i == 1 {
        "keep-open"@
    } else if i == 2 {
        "ytdl"@
    } else if i == 3 {
        "vo"@
    } else if i == 4 {
        "gpu-context"@
    } else if i == 5 {
        "hwdec"@
    } else {
        "video-sync"@
    }
}

/// The baseline option value at position `i` of the initialization
/// sequence.
pub open spec fn option_value_spec(i: int) -> Seq<char> {
    if i == 0 {
        "yes"@
    } else if i == 1 {
        "yes"@
    } else if i == 2 {
        "no"@
    } else if i == 3 {
        "gpu"@
    } else if i == 4 {
        "d3d11"@
    } else if i == 5 {
        "auto-safe"@
    } else {
        "display-resample"@
    }
}

/// The fixed baseline of engine options applied before initialization: an
/// on-screen window, keep the engine open at end of stream, no bundled
/// downloader, a GPU video output with a platform graphics context,
/// automatic-safe hardware decoding, and display-synced timing.
pub fn init_options() -> (r: Vec<(String, String)>)
    ensures
        r@.len() == 7,
        forall|i: int|
            0 <= i < 7 ==> (#[trigger] r@[i]).0@ == option_key_spec(i) && r@[i].1@
                == option_value_spec(i),
{
    let mut v: Vec<(String, String)> = Vec::new();
    v.push((String::from_str("force-window"), String::from_str("yes")));
    v.push((String::from_str("keep-open"), String::from_str("yes")));
    v.push((String::from_str("ytdl"), String::from_str("no")));
    v.push((String::from_str("vo"), String::from_str("gpu")));
    v.push((String::from_str("gpu-context"), String::from_str("d3d11")));
    v.push((String::from_str("hwdec"), String::from_str("auto-safe")));
    v.push((String::from_str("video-sync"), String::from_str("display-resample")));
    v
}

/// Where an initialization run stands: still applying options (or about to
/// initialize), failed at some step, or complete.
#[verifier::ext_equal]
pub ghost enum InitOutcomeModel {
    Pending,
    Failed(int, Seq<char>),
    Complete,
}

/// An initialization run over plain values: the position in the option
/// sequence (7 means the initialize call itself) and its outcome.
#[verifier::ext_equal]
pub ghost struct InitFlowModel {
    pub pos: int,
    pub outcome: InitOutcomeModel,
}

/// How one status code advances an initialization run: a negative status
/// fails the whole run at once, naming the offending option — or the
/// initialize step itself; otherwise the run moves to the next option, and
/// past the last option a non-negative initialize status completes it.
pub open spec fn init_step_model(m: InitFlowModel, status: int) -> InitFlowModel {
    if status < 0 {
        InitFlowModel {
            pos: m.pos,
            outcome: InitOutcomeModel::Failed(
                status,
                if m.pos < 7 {
                    option_key_spec(m.pos)
                } else {
                    "initialize"@
                },
            ),
        }
    } else if m.pos >= 7 {
        InitFlowModel { pos: m.pos, outcome: InitOutcomeModel::Complete }
    } else {
        InitFlowModel { pos: m.pos + 1, outcome: InitOutcomeModel::Pending }
    }
}

/// What the driver should do next in an initialization run.
pub enum InitAction {
    SetOption(String, String),
    Initialize,
}

/// The initialization machine: applies the seven baseline options in
/// order, then the initialize entry point, stopping at the first negative
/// status.  The driver alternates `next_action`, the engine call, and
/// `feed`.
pub struct InitFlow {
    pos: usize,
    failed: Option<(i32, String)>,
    complete: bool,
}

impl InitFlow {
    /// The run's state over plain values.
    pub closed spec fn model(self) -> InitFlowModel {
        InitFlowModel {
            pos: self.pos as int,
            outcome: match self.failed {
                Option::Some((c, s)) => InitOutcomeModel::Failed(c as int, s@),
                Option::None => if self.complete {
                    InitOutcomeModel::Complete
                } else {
                    InitOutcomeModel::Pending
                },
            },
        }
    }

    /// While the run is pending its position lies within the sequence.
    pub open spec fn wf(self) -> bool {
        self.model().outcome is Pending ==> 0 <= self.model().pos <= 7
    }

    /// Starts an initialization run at the first option.
    pub fn new() -> (r: InitFlow)
        ensures
            r.wf(),
            r.model() == (InitFlowModel { pos: 0, outcome: InitOutcomeModel::Pending }),
    {
        InitFlow { pos: 0, failed: None, complete: false }
    }

    /// The next engine call to make, or nothing once the run has ended.
    pub fn next_action(&self) -> (r: Option<InitAction>)
        requires
            self.wf(),
        ensures
            match r {
                Option::None => !(self.model().outcome is Pending),
                Option::Some(InitAction::SetOption(k, v)) => self.model().outcome is Pending
                    && self.model().pos < 7 && k@ == option_key_spec(self.model().pos) && v@
                    == option_value_spec(self.model().pos),
                Option::Some(InitAction::Initialize) => self.model().outcome is Pending
                    && self.model().pos == 7,
            },
    {
        if self.failed.is_some() || self.complete {
            None
        } else if self.pos < 7 {
            let opts = init_options();
            let (k, v) = (opts[self.pos].0.clone(), opts[self.pos].1.clone());
            Some(InitAction::SetOption(k, v))
        } else {
            Some(InitAction::Initialize)
        }
    }

    /// Feeds the status code the engine answered with.
    pub fn feed(&mut self, status: i32)
        requires
            old(self).wf(),
            old(self).model().outcome is Pending,
        ensures
            final (self).wf(),
            final (self).model() == init_step_model(old(self).model(), status as int),
    {
        if status < 0 {
            let context: String = if self.pos < 7 {
                let opts = init_options();
                opts[self.pos].0.clone()
            } else {
                String::from_str("initialize")
            };
            self.failed = Some((status, context));
        } else if self.pos >= 7 {
            self.complete = true;
        } else {
            self.pos = self.pos + 1;
        }
        assert(final (self).model() =~= init_step_model(old(self).model(), status as int));
    }
}

/// The name of the engine option that carries the host window id.
pub fn wid_option_name() -> (r: &'static str)
    ensures
        r@ == "wid"@,
{
    "wid"
}

/// The 64-bit integer encoding of the host window handle, as the engine's
/// window-id option and property expect it.
pub fn wid_value(window_id: u32) -> (r: i64)
    ensures
        r == window_id as int,
{
    window_id as i64
}

/// The 0-or-1 flag encoding of a boolean property value.
pub fn flag_value(b: bool) -> (r: i32)
    ensures
        b ==> r == 1,
        !b ==> r == 0,
{
    if b {
        1
    } else {
        0
    }
}

/// Checks that an option key and value can cross the C boundary; with an
/// embedded nul byte the operation is refused before any engine call.
pub fn option_strings_encodable(key: &String, value: &String) -> (r: Result<(), MpvError>)
    ensures
        (encodable(key@) && encodable(value@)) <==> r is Ok,
        r matches Err(e) ==> e is Encoding,
{
    if !check_encodable(key.as_str()) {
        Err(MpvError::Encoding)
    } else if !check_encodable(value.as_str()) {
        Err(MpvError::Encoding)
    } else {
        Ok(())
    }
}

/// The engine command that loads a URI, replacing the current playlist
/// entry; refused before any engine call when the URI cannot cross the C
/// boundary.
pub fn load_command(url: &String) -> (r: Result<Vec<String>, MpvError>)
    ensures
        encodable(url@) <==> r is Ok,
        r matches Ok(args) ==> args@.len() == 3 && args@[0]@ == "loadfile"@ && args@[1]@ == url@
            && args@[2]@ == "replace"@,
        r matches Err(e) ==> e is Encoding,
{
    if !check_encodable(url.as_str()) {
        return Err(MpvError::Encoding);
    }
    let mut v: Vec<String> = Vec::new();
    v.push(String::from_str("loadfile"));
    v.push(url.clone());
    v.push(String::from_str("replace"));
    Ok(v)
}

/// The engine command that seeks by a string-encoded offset, relative or
/// absolute; refused before any engine call when the offset text cannot
/// cross the C boundary.
pub fn seek_command(offset_text: &String, relative: bool) -> (r: Result<Vec<String>, MpvError>)
    ensures
        encodable(offset_text@) <==> r is Ok,
        r matches Ok(args) ==> args@.len() == 3 && args@[0]@ == "seek"@ && args@[1]@
            == offset_text@ && args@[2]@ == (if relative {
            "relative"@
        } else {
            "absolute"@
        }),
        r matches Err(e) ==> e is Encoding,
{
    if !check_encodable(offset_text.as_str()) {
        return Err(MpvError::Encoding);
    }
    let mut v: Vec<String> = Vec::new();
    v.push(String::from_str("seek"));
    v.push(offset_text.clone());
    if relative {
        v.push(String::from_str("relative"));
    } else {
        v.push(String::from_str("absolute"));
    }
    Ok(v)
}

/// The engine command that stops playback.
pub fn stop_command() -> (r: Vec<String>)
    ensures
        r@.len() == 1,
        r@[0]@ == "stop"@,
{
    let mut v: Vec<String> = Vec::new();
    v.push(String::from_str("stop"));
    v
}

/// One flag-typed property read: the native status and the 0-or-1 value
/// left in the output buffer (zero when the read failed and the buffer was
/// left at its zero initialization).
#[derive(Clone, Copy, PartialEq, Eq, Structural, Debug)]
pub struct FlagRead {
    pub status: i32,
    pub value: i32,
}

/// One double-typed property read: the native status and the IEEE-754 bit
/// pattern of the value left in the output buffer; 0 is the pattern of a
/// zero value.
#[derive(Clone, Copy, PartialEq, Eq, Structural, Debug)]
pub struct DoubleRead {
    pub status: i32,
    pub bits: u64,
}

/// A best-effort snapshot of playback state.  `ready` is true whenever the
/// engine was reachable at all; the numeric fields carry IEEE-754 bit
/// patterns of the doubles the engine reported, zero when the matching read
/// failed.
#[derive(Clone, Copy, PartialEq, Eq, Structural, Debug)]
pub struct StateSnapshot {
    pub ready: bool,
    pub paused: bool,
    pub time_bits: u64,
    pub duration_bits: u64,
    pub volume_bits: u64,
    pub mute: bool,
}

/// The snapshot built from the five property reads: each failed read keeps
/// its zero or false default, and the snapshot as a whole always reports
/// ready.
pub open spec fn snapshot_spec(
    paused: FlagRead,
    time: DoubleRead,
    duration: DoubleRead,
    volume: DoubleRead,
    mute: FlagRead,
) -> StateSnapshot {
    StateSnapshot {
        ready: true,
        paused: paused.status >= 0 && paused.value != 0,
        time_bits: if time.status >= 0 {
            time.bits
        } else {
            0
        },
        duration_bits: if duration.status >= 0 {
            duration.bits
        } else {
            0
        },
        volume_bits: if volume.status >= 0 {
            volume.bits
        } else {
            0
        },
        mute: mute.status >= 0 && mute.value != 0,
    }
}

/// The five property names of the state snapshot, in read order: the
/// paused flag, time position, duration, volume, and mute flag.
pub fn state_property_names() -> (r: Vec<&'static str>)
    ensures
        r@.len() == 5,
        r@[0]@ == "pause"@,
        r@[1]@ == "time-pos"@,
        r@[2]@ == "duration"@,
        r@[3]@ == "volume"@,
        r@[4]@ == "mute"@,
{
    let mut v: Vec<&'static str> = Vec::new();
    v.push("pause");
    v.push("time-pos");
    v.push("duration");
    v.push("volume");
    v.push("mute");
    v
}

impl MpvHandle {
    /// Attaches the playback surface, given the status codes of the option
    /// attempt and of the property attempt made with the same window id.
    pub fn attach_hwnd(&mut self, window_id: u32, option_status: i32, property_status: i32) -> (r:
        Result<(), MpvError>)
        requires
            old(self).state != Lifecycle::Shutdown,
        ensures
            *final (self) == attach_spec(*old(self), window_id, option_status, property_status).0,
            r == attach_spec(*old(self), window_id, option_status, property_status).1,
            (option_status >= 0 || property_status >= 0) <==> r is Ok,
            r is Ok ==> final (self).attached,
            final (self).state == old(self).state,
    {
        if option_status >= 0 || property_status >= 0 {
            self.attached = true;
            Ok(())
        } else {
            Err(
                MpvError::AttachFailed {
                    option_status,
                    property_status,
                    window_id,
                },
            )
        }
    }

    /// Completes an initialization run: a complete run moves the handle to
    /// `Initialized`; a failed run leaves it unchanged and surfaces the
    /// failure, naming the offending option or the initialize step.
    pub fn init(&mut self, flow: &InitFlow) -> (r: Result<(), MpvError>)
        requires
            old(self).state == Lifecycle::Created,
            flow.wf(),
            !(flow.model().outcome is Pending),
        ensures
            flow.model().outcome is Complete ==> r is Ok && final (self).state
                == Lifecycle::Initialized && final (self).attached == old(self).attached,
            flow.model().outcome matches InitOutcomeModel::Failed(c, ctx) ==> (*final (self)
                == *old(self) && (r matches Err(e) && (e matches MpvError::Native {
                code,
                context,
            } && code == c && context@ == ctx))),
    {
        match &flow.failed {
            Some((c, s)) => Err(MpvError::Native { code: *c, context: s.clone() }),
            None => {
                self.state = Lifecycle::Initialized;
                Ok(())
            },
        }
    }

    /// Translates the status of the load command.
    pub fn load(&self, status: i32) -> (r: Result<(), MpvError>)
        requires
            self.state != Lifecycle::Shutdown,
        ensures
            status >= 0 <==> r is Ok,
            status < 0 ==> (r matches Err(e) && e matches MpvError::Native { code, context }
                && code == status && context@ == "loadfile"@),
    {
        check_err(status, "loadfile")
    }

    /// Translates the status of setting the paused flag.
    pub fn pause(&self, paused: bool, status: i32) -> (r: Result<(), MpvError>)
        requires
            self.state != Lifecycle::Shutdown,
        ensures
            status >= 0 <==> r is Ok,
            status < 0 ==> (r matches Err(e) && e matches MpvError::Native { code, context }
                && code == status && context@ == "pause"@),
    {
        let _ = paused;
        check_err(status, "pause")
    }

    /// Translates the status of the seek command.
    pub fn seek(&self, status: i32) -> (r: Result<(), MpvError>)
        requires
            self.state != Lifecycle::Shutdown,
        ensures
            status >= 0 <==> r is Ok,
            status < 0 ==> (r matches Err(e) && e matches MpvError::Native { code, context }
                && code == status && context@ == "seek"@),
    {
        check_err(status, "seek")
    }

    /// Translates the status of setting the volume property.
    pub fn set_volume(&self, status: i32) -> (r: Result<(), MpvError>)
        requires
            self.state != Lifecycle::Shutdown,
        ensures
            status >= 0 <==> r is Ok,
            status < 0 ==> (r matches Err(e) && e matches MpvError::Native { code, context }
                && code == status && context@ == "volume"@),
    {
        check_err(status, "volume")
    }

    /// Translates the status of setting the mute flag.
    pub fn set_mute(&self, mute: bool, status: i32) -> (r: Result<(), MpvError>)
        requires
            self.state != Lifecycle::Shutdown,
        ensures
            status >= 0 <==> r is Ok,
            status < 0 ==> (r matches Err(e) && e matches MpvError::Native { code, context }
                && code == status && context@ == "mute"@),
    {
        let _ = mute;
        check_err(status, "mute")
    }

    /// Translates the status of the stop command.
    pub fn stop(&self, status: i32) -> (r: Result<(), MpvError>)
        requires
            self.state != Lifecycle::Shutdown,
        ensures
            status >= 0 <==> r is Ok,
            status < 0 ==> (r matches Err(e) && e matches MpvError::Native { code, context }
                && code == status && context@ == "stop"@),
    {
        check_err(status, "stop")
    }

    /// Translates the status of a raw string-option call.
    pub fn set_option_string(&self, status: i32) -> (r: Result<(), MpvError>)
        requires
            self.state != Lifecycle::Shutdown,
        ensures
            status >= 0 <==> r is Ok,
            status < 0 ==> (r matches Err(e) && e matches MpvError::Native { code, context }
                && code == status && context@ == "set_option_string"@),
    {
        check_err(status, "set_option_string")
    }

    /// Builds the best-effort state snapshot from the five property reads.
    /// This never fails: failed reads keep their defaults.
    pub fn get_state(
        &self,
        paused: FlagRead,
        time: DoubleRead,
        duration: DoubleRead,
        volume: DoubleRead,
        mute: FlagRead,
    ) -> (r: StateSnapshot)
        requires
            self.state != Lifecycle::Shutdown,
        ensures
            r == snapshot_spec(paused, time, duration, volume, mute),
    {
        StateSnapshot {
            ready: true,
            paused: paused.status >= 0 && paused.value != 0,
            time_bits: if time.status >= 0 {
                time.bits
            } else {
                0
            },
            duration_bits: if duration.status >= 0 {
                duration.bits
            } else {
                0
            },
            volume_bits: if volume.status >= 0 {
                volume.bits
            } else {
                0
            },
            mute: mute.status >= 0 && mute.value != 0,
        }
    }

    /// Shuts the handle down.  The result says whether the driver owes the
    /// native destroy call: true exactly when the handle was not already
    /// shut down, so destroy happens at most once however often this is
    /// called.  The same decision serves the implicit disposal path.
    pub fn shutdown(&mut self) -> (destroy_now: bool)
        ensures
            *final (self) == shutdown_spec(*old(self)).0,
            destroy_now == shutdown_spec(*old(self)).1,
            final (self).state == Lifecycle::Shutdown,
    {
        let destroy_now = self.state != Lifecycle::Shutdown;
        self.state = Lifecycle::Shutdown;
        destroy_now
    }
}

/// When the optional log-level entry point is absent, creation of a
/// non-null instance still succeeds and the best-effort log-suppression
/// step is skipped: the quiet flag handed to the driver is false.
pub proof fn lemma_create_skips_absent_log_level(t: SymbolTableShape)
    requires
        !t.has_set_log_level,
    ensures
        create_spec(Result::Ok(t), false) matches CreateModel::Ready(h, quiet) && h
            == (MpvHandle { state: Lifecycle::Created, attached: false }) && !quiet,
{
}

/// With no table — resolution or binding failed — no handle can be
/// created: the factory reports exactly the memoized failure reason,
/// whatever the engine would have answered.
pub proof fn lemma_no_table_no_handle(reason: Seq<char>, instance_null: bool)
    ensures
        create_spec(Result::Err(reason), instance_null) == CreateModel::NoTable(reason),
{
}

/// Surface attachment that fails as an option but succeeds as a property
/// reports overall success and sets the attached flag.
pub proof fn lemma_attach_property_fallback(
    h: MpvHandle,
    window_id: u32,
    option_status: i32,
    property_status: i32,
)
    requires
        option_status < 0,
        property_status >= 0,
    ensures
        attach_spec(h, window_id, option_status, property_status).1 is Ok,
        attach_spec(h, window_id, option_status, property_status).0.attached,
        attach_spec(h, window_id, option_status, property_status).0.state == h.state,
{
}

/// Surface attachment that fails both as an option and as a property
/// fails, the handle is unchanged, and the failure's message carries the
/// decimal renderings of both status codes and of the window id.
pub proof fn lemma_attach_failure_names_both(
    h: MpvHandle,
    window_id: u32,
    option_status: i32,
    property_status: i32,
)
    requires
        option_status < 0,
        property_status < 0,
    ensures
        attach_spec(h, window_id, option_status, property_status).0 == h,
        attach_spec(h, window_id, option_status, property_status).1 == Result::<
            (),
            MpvError,
        >::Err(MpvError::AttachFailed { option_status, property_status, window_id }),
        ({
            let msg = attach_failed_message(
                option_status as int,
                property_status as int,
                window_id as nat,
            );
            let so = status_str(option_status as int);
            let sp = status_str(property_status as int);
            let sw = dec_str(window_id as nat);
            &&& exists|i: int|
                0 <= i && i + so.len() <= msg.len() && #[trigger] msg.subrange(i, i + so.len())
                    == so
            &&& exists|i: int|
                0 <= i && i + sp.len() <= msg.len() && #[trigger] msg.subrange(i, i + sp.len())
                    == sp
            &&& exists|i: int|
                0 <= i && i + sw.len() <= msg.len() && #[trigger] msg.subrange(i, i + sw.len())
                    == sw
        }),
{
    let a = "Failed to set wid: option="@;
    let so = status_str(option_status as int);
    let b = ", property="@;
    let sp = status_str(property_status as int);
    let c = ", hwnd="@;
    let sw = dec_str(window_id as nat);
    let msg = attach_failed_message(option_status as int, property_status as int, window_id as nat);
    assert(msg == a + so + b + sp + c + sw);
    let i0 = a.len() as int;
    assert(msg.subrange(i0, i0 + so.len()) =~= so);
    let i1 = (a.len() + so.len() + b.len()) as int;
    assert(msg.subrange(i1, i1 + sp.len()) =~= sp);
    let i2 = i1 + sp.len() + c.len();
    assert(msg.subrange(i2, i2 + sw.len()) =~= sw);
}

/// The destroy call happens at most once: the first shutdown owes it
/// exactly when the handle was alive, and a second shutdown — or the
/// disposal of an already-shut-down handle — owes nothing and changes
/// nothing.
pub proof fn lemma_shutdown_at_most_once(h: MpvHandle)
    ensures
        ({
            let (h1, d1) = shutdown_spec(h);
            let (h2, d2) = shutdown_spec(h1);
            &&& h1.state == Lifecycle::Shutdown
            &&& d1 == (h.state != Lifecycle::Shutdown)
            &&& !d2
            &&& h2 == h1
        }),
{
}

/// The state snapshot never fails: when every property read fails, every
/// numeric field keeps its zero default, both flags stay false, and the
/// snapshot still reports ready.
pub proof fn lemma_snapshot_total_on_failure(
    paused: FlagRead,
    time: DoubleRead,
    duration: DoubleRead,
    volume: DoubleRead,
    mute: FlagRead,
)
    requires
        paused.status < 0,
        time.status < 0,
        duration.status < 0,
        volume.status < 0,
        mute.status < 0,
    ensures
        snapshot_spec(paused, time, duration, volume, mute) == (StateSnapshot {
            ready: true,
            paused: false,
            time_bits: 0,
            duration_bits: 0,
            volume_bits: 0,
            mute: false,
        }),
{
}

} // verus!
