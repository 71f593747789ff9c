//! The camera: what the capture loop decides between two frames.
//!
//! The loop itself belongs to whoever holds the device. It reads a frame,
//! asks here what circle to draw and how long to rest, and writes the frame
//! into the shared slot, or empties the slot when no frame came.

use crate::backend::BackendState;
use crate::backend::CameraSettings;
use crate::backend::CircleLocation;
use crate::backend::DeviceState;
use crate::communication::camera_note;
use crate::communication::emit;
use crate::communication::views;
use crate::communication::DeviceUpdate;
use crate::communication::Update;
use crate::communication::UpdateView;
use crate::text::decimal;
use crate::text::digits_of;
use vstd::prelude::*;
use vstd::string::StringExecFns;

verus! {

/// The time from one frame to the next, in nanoseconds: 33 milliseconds.
pub const TARGET_FRAME_NS: u64 = 33_000_000;

/// How many camera numbers are probed when the cameras are listed.
pub const CAMERA_PROBES: usize = 10;

/// How long the capture loop rests after a round that took `elapsed_ns`:
/// what is left of the frame period, if anything is.
pub open spec fn pause_after(elapsed_ns: u64) -> u64 {
    if elapsed_ns < TARGET_FRAME_NS {
        (TARGET_FRAME_NS - elapsed_ns) as u64
    } else {
        0
    }
}

/// How long the capture loop rests after a round that took `elapsed_ns`.
pub fn frame_pause(elapsed_ns: u64) -> (pause_ns: u64)
    ensures
        pause_ns == pause_after(elapsed_ns),
{
    if elapsed_ns < TARGET_FRAME_NS {
        TARGET_FRAME_NS - elapsed_ns
    } else {
        0
    }
}

/// What came of reading a frame.
#[derive(Clone, Copy, Debug, PartialEq, Eq, Structural)]
pub enum FrameRead {
    /// A frame with pixels in it.
    Frame,
    /// A frame without pixels.
    Empty,
    /// No frame.
    Failed,
}

/// The circle to draw without looking for one: the locked circle, while the
/// lock is on and a circle is held.
pub open spec fn held_circle(settings: CameraSettings) -> Option<CircleLocation> {
    if settings.lock_circle {
        settings.locked_circle
    } else {
        None
    }
}

/// What the capture loop draws on a frame.
#[derive(Clone, Copy, Debug, PartialEq, Eq, Structural)]
pub enum Overlay {
    /// The locked circle, in red.
    Locked(CircleLocation),
    /// A circle found in this frame, in green.
    Found(CircleLocation),
    /// Nothing.
    Blank,
}

/// The circle that the capture loop can draw at once, if there is one.
/// `None` asks for a detection within the radius bounds.
pub fn locked_circle(settings: &CameraSettings) -> (circle: Option<CircleLocation>)
    ensures
        circle == held_circle(*settings),
{
    if settings.lock_circle {
        settings.locked_circle
    } else {
        None
    }
}

/// Decides what is drawn on a frame and which circle is held from now on.
///
/// While the lock is on and a circle is held, that circle is drawn and
/// kept; the detection is not looked at. Otherwise the circle that was found
/// is drawn and becomes the held one, so that locking keeps the last circle
/// seen; a frame without a circle holds none; and a detection that failed
/// leaves the held circle as it is.
pub fn detect_and_draw_circle(
    settings: &mut CameraSettings,
    detection: Result<Option<CircleLocation>, ()>,
) -> (overlay: Overlay)
    ensures
        (overlay, *final(settings)) == circle_drawn(*old(settings), detection),
{
    match locked_circle(settings) {
        Some(circle) => Overlay::Locked(circle),
        None => match detection {
            Ok(Some(circle)) => {
                settings.locked_circle = Some(circle);
                Overlay::Found(circle)
            },
            Ok(None) => {
                settings.locked_circle = None;
                Overlay::Blank
            },
            Err(_) => Overlay::Blank,
        },
    }
}

/// What the capture loop is to do before it asks again.
#[derive(Clone, Copy, Debug, PartialEq, Eq, Structural)]
pub enum CaptureAction {
    /// Open the device and say whether it opened.
    Open,
    /// Read a frame and say what came.
    Read,
    /// Look for a circle within these radius bounds and say what was found.
    Detect { min_radius: i32, max_radius: i32 },
    /// Draw this on the frame and publish the picture.
    Show(Overlay),
    /// Rest so many nanoseconds.
    Rest(u64),
    /// The session is over.
    Stopped,
}

/// What happened since the capture loop last asked.
#[derive(Clone, Copy, Debug, PartialEq, Eq)]
pub enum CaptureEvent {
    /// The session begins, or the picture is published, or the rest is over.
    Resume,
    /// Whether the device opened.
    Opened(bool),
    /// What came of reading a frame.
    Read(FrameRead),
    /// The circle that was found, if one was, or the failure to look.
    Detected(Result<Option<CircleLocation>, ()>),
}

/// What becomes of the shared frame slot.
#[derive(Clone, Copy, Debug, PartialEq, Eq, Structural)]
pub enum Slot {
    /// It stays as it is.
    Keep,
    /// It takes the frame that was just read.
    Fill,
    /// It is emptied.
    Clear,
}

/// Where a capture session stands.
#[derive(Clone, Copy, Debug, PartialEq, Eq, Structural)]
pub enum CapturePhase {
    /// Not begun.
    Closed,
    /// The device is being opened.
    Opening,
    /// A frame is being read.
    Reading,
    /// A circle is being looked for.
    Detecting,
    /// The picture is being published.
    Showing(Overlay),
    /// The loop rests.
    Resting(u64),
    /// The session is over.
    Stopped,
}

/// A capture session.
#[derive(Clone, Copy, Debug, PartialEq, Eq, Structural)]
pub struct Capture {
    pub phase: CapturePhase,
}

/// The answer of a capture session.
pub struct CaptureStep {
    pub action: CaptureAction,
    pub slot: Slot,
    pub updates: Vec<Update>,
}

/// A capture session, the settings, and what the loop is to do, after one
/// call.
pub ghost struct Captured {
    pub session: Capture,
    pub settings: CameraSettings,
    pub action: CaptureAction,
    pub slot: Slot,
    pub notes: Seq<UpdateView>,
}

/// The head of a round: a session whose stop flag is set is over; otherwise
/// a frame is read.
pub open spec fn capture_round(
    settings: CameraSettings,
    stop: bool,
    slot: Slot,
    notes: Seq<UpdateView>,
) -> Captured {
    if stop {
        Captured {
            session: Capture { phase: CapturePhase::Stopped },
            settings,
            action: CaptureAction::Stopped,
            slot,
            notes,
        }
    } else {
        Captured {
            session: Capture { phase: CapturePhase::Reading },
            settings,
            action: CaptureAction::Read,
            slot,
            notes,
        }
    }
}

/// The rest that a round ends with.
pub open spec fn capture_rest(settings: CameraSettings, elapsed_ns: u64, slot: Slot) -> Captured {
    Captured {
        session: Capture { phase: CapturePhase::Resting(pause_after(elapsed_ns)) },
        settings,
        action: CaptureAction::Rest(pause_after(elapsed_ns)),
        slot,
        notes: Seq::empty(),
    }
}

/// The circle that is drawn on a frame, and the settings afterwards.
pub open spec fn circle_drawn(
    settings: CameraSettings,
    detection: Result<Option<CircleLocation>, ()>,
) -> (Overlay, CameraSettings) {
    match (held_circle(settings), detection) {
        (Some(circle), _) => (Overlay::Locked(circle), settings),
        (None, Ok(Some(circle))) => (
            Overlay::Found(circle),
            CameraSettings { locked_circle: Some(circle), ..settings },
        ),
        (None, Ok(None)) => (Overlay::Blank, CameraSettings { locked_circle: None, ..settings }),
        (None, Err(_)) => (Overlay::Blank, settings),
    }
}

/// What one call makes of a capture session.
///
/// The session opens its device and reports whether it opened; a device
/// that does not open ends the session. Then, round after round until the
/// stop flag is set: a frame is read. A frame with pixels goes into the
/// shared slot, the locked circle or a freshly found one is drawn on it, the
/// picture is published, and the loop rests for what is left of the frame
/// period. A frame without pixels empties the slot and is read again at
/// once. No frame empties the slot, and the loop rests. An event that does
/// not answer what was asked for changes nothing, and the same is asked for
/// again.
pub open spec fn capture_stepped(
    m: Capture,
    settings: CameraSettings,
    stop: bool,
    elapsed_ns: u64,
    event: CaptureEvent,
) -> Captured {
    let again = |action: CaptureAction|
        Captured { session: m, settings, action, slot: Slot::Keep, notes: Seq::empty() };
    match m.phase {
        CapturePhase::Stopped => again(CaptureAction::Stopped),
        CapturePhase::Closed => Captured {
            session: Capture { phase: CapturePhase::Opening },
            settings,
            action: CaptureAction::Open,
            slot: Slot::Keep,
            notes: Seq::empty(),
        },
        CapturePhase::Opening => match event {
            CaptureEvent::Opened(true) => capture_round(
                settings,
                stop,
                Slot::Keep,
                seq![camera_note(true)],
            ),
            CaptureEvent::Opened(false) => Captured {
                session: Capture { phase: CapturePhase::Stopped },
                settings,
                action: CaptureAction::Stopped,
                slot: Slot::Keep,
                notes: seq![camera_note(false)],
            },
            _ => again(CaptureAction::Open),
        },
        CapturePhase::Reading => match event {
            CaptureEvent::Read(FrameRead::Frame) => match held_circle(settings) {
                Some(circle) => Captured {
                    session: Capture { phase: CapturePhase::Showing(Overlay::Locked(circle)) },
                    settings,
                    action: CaptureAction::Show(Overlay::Locked(circle)),
                    slot: Slot::Fill,
                    notes: Seq::empty(),
                },
                None => Captured {
                    session: Capture { phase: CapturePhase::Detecting },
                    settings,
                    action: CaptureAction::Detect {
                        min_radius: settings.min_radius,
                        max_radius: settings.max_radius,
                    },
                    slot: Slot::Fill,
                    notes: Seq::empty(),
                },
            },
            CaptureEvent::Read(FrameRead::Empty) => capture_round(
                settings,
                stop,
                Slot::Clear,
                Seq::empty(),
            ),
            CaptureEvent::Read(FrameRead::Failed) => capture_rest(settings, elapsed_ns, Slot::Clear),
            _ => again(CaptureAction::Read),
        },
        CapturePhase::Detecting => match event {
            CaptureEvent::Detected(detection) => {
                let (overlay, held) = circle_drawn(settings, detection);
                Captured {
                    session: Capture { phase: CapturePhase::Showing(overlay) },
                    settings: held,
                    action: CaptureAction::Show(overlay),
                    slot: Slot::Keep,
                    notes: Seq::empty(),
                }
            },
            _ => again(
                CaptureAction::Detect {
                    min_radius: settings.min_radius,
                    max_radius: settings.max_radius,
                },
            ),
        },
        CapturePhase::Showing(overlay) => match event {
            CaptureEvent::Resume => capture_rest(settings, elapsed_ns, Slot::Keep),
            _ => again(CaptureAction::Show(overlay)),
        },
        CapturePhase::Resting(pause) => match event {
            CaptureEvent::Resume => capture_round(settings, stop, Slot::Keep, Seq::empty()),
            _ => again(CaptureAction::Rest(pause)),
        },
    }
}

impl Capture {
    /// A session that has not begun.
    pub fn new() -> (m: Capture)
        ensures
            m == (Capture { phase: CapturePhase::Closed }),
    {
        Capture { phase: CapturePhase::Closed }
    }

    fn round(&mut self, stop: bool) -> (action: CaptureAction)
        ensures
            final(self).phase == if stop {
                CapturePhase::Stopped
            } else {
                CapturePhase::Reading
            },
            action == if stop {
                CaptureAction::Stopped
            } else {
                CaptureAction::Read
            },
    {
        if stop {
            self.phase = CapturePhase::Stopped;
            CaptureAction::Stopped
        } else {
            self.phase = CapturePhase::Reading;
            CaptureAction::Read
        }
    }

    fn rest(&mut self, elapsed_ns: u64) -> (action: CaptureAction)
        ensures
            final(self).phase == CapturePhase::Resting(pause_after(elapsed_ns)),
            action == CaptureAction::Rest(pause_after(elapsed_ns)),
    {
        let pause = frame_pause(elapsed_ns);
        self.phase = CapturePhase::Resting(pause);
        CaptureAction::Rest(pause)
    }

    /// Says the next thing to do for the capture loop, given the stop flag,
    /// the time that the round has taken so far, and what happened.
    pub fn step(
        &mut self,
        settings: &mut CameraSettings,
        stop: bool,
        elapsed_ns: u64,
        event: CaptureEvent,
    ) -> (step: CaptureStep)
        ensures
            ({
                let x = capture_stepped(*old(self), *old(settings), stop, elapsed_ns, event);
                &&& *final(self) == x.session
                &&& *final(settings) == x.settings
                &&& step.action == x.action
                &&& step.slot == x.slot
                &&& views(step.updates@) == x.notes
            }),
    {
        let mut updates: Vec<Update> = Vec::new();
        assert(views(updates@) =~= Seq::empty());
        let mut slot = Slot::Keep;
        let action: CaptureAction = match self.phase {
            CapturePhase::Stopped => CaptureAction::Stopped,
            CapturePhase::Closed => {
                self.phase = CapturePhase::Opening;
                CaptureAction::Open
            },
            CapturePhase::Opening => match event {
                CaptureEvent::Opened(opened) => {
                    emit(&mut updates, Update::Device(DeviceUpdate::CameraConnectionStatus(opened)));
                    assert(views(updates@) =~= seq![camera_note(opened)]);
                    if opened {
                        self.round(stop)
                    } else {
                        self.phase = CapturePhase::Stopped;
                        CaptureAction::Stopped
                    }
                },
                _ => CaptureAction::Open,
            },
            CapturePhase::Reading => match event {
                CaptureEvent::Read(FrameRead::Frame) => {
                    slot = Slot::Fill;
                    match locked_circle(settings) {
                        Some(circle) => {
                            self.phase = CapturePhase::Showing(Overlay::Locked(circle));
                            CaptureAction::Show(Overlay::Locked(circle))
                        },
                        None => {
                            self.phase = CapturePhase::Detecting;
                            CaptureAction::Detect {
                                min_radius: settings.min_radius,
                                max_radius: settings.max_radius,
                            }
                        },
                    }
                },
                CaptureEvent::Read(FrameRead::Empty) => {
                    slot = Slot::Clear;
                    self.round(stop)
                },
                CaptureEvent::Read(FrameRead::Failed) => {
                    slot = Slot::Clear;
                    self.rest(elapsed_ns)
                },
                _ => CaptureAction::Read,
            },
            CapturePhase::Detecting => match event {
                CaptureEvent::Detected(detection) => {
                    let overlay = detect_and_draw_circle(settings, detection);
                    self.phase = CapturePhase::Showing(overlay);
                    CaptureAction::Show(overlay)
                },
                _ => CaptureAction::Detect {
                    min_radius: settings.min_radius,
                    max_radius: settings.max_radius,
                },
            },
            CapturePhase::Showing(overlay) => match event {
                CaptureEvent::Resume => self.rest(elapsed_ns),
                _ => CaptureAction::Show(overlay),
            },
            CapturePhase::Resting(pause) => match event {
                CaptureEvent::Resume => self.round(stop),
                _ => CaptureAction::Rest(pause),
            },
        };
        CaptureStep { action, slot, updates }
    }
}

/// The state with the camera flag set.
pub open spec fn with_camera(s: BackendState, on: bool) -> BackendState {
    BackendState { devices: DeviceState { camera_connected: on, ..s.devices }, ..s }
}

/// Takes note of a capture session that was started. Whether the device
/// opens is reported by the session itself.
pub fn connect_camera(state: &mut BackendState)
    ensures
        *final(state) == with_camera(*old(state), true),
{
    state.devices.camera_connected = true;
}

/// Takes note of a capture session that was torn down.
pub fn disconnect_camera(state: &mut BackendState)
    ensures
        *final(state) == with_camera(*old(state), false),
{
    state.devices.camera_connected = false;
}

/// What came of probing one camera number.
#[derive(Clone, Copy, Debug, PartialEq, Eq, Structural)]
pub enum Probe {
    /// The device opened.
    Opened,
    /// A capture object was made and its device did not open.
    Closed,
    /// No capture object could be made.
    Failed,
}

/// The name under which a camera is listed.
pub open spec fn camera_name_of(index: int) -> Seq<char> {
    "Camera "@ + digits_of(index as nat)
}

/// The name under which a camera is listed: `Camera`, a blank and the
/// number.
fn camera_name(index: usize) -> (name: String)
    requires
        index < CAMERA_PROBES,
    ensures
        name@ == camera_name_of(index as int),
{
    let mut name = String::from_str("Camera ");
    let number = decimal(index as u32);
    name.append(number.as_str());
    assert(name@ =~= camera_name_of(index as int));
    name
}

/// The cameras found by a run of probes, numbered from zero: every camera
/// that opened, up to the first number whose device did not open. A number
/// for which no capture object could be made is passed over.
pub open spec fn cameras_found(probes: Seq<Probe>) -> Seq<Seq<char>>
    decreases probes.len(),
{
    if probes.len() == 0 {
        Seq::empty()
    } else {
        let before = probes.drop_last();
        if exists|j: int| 0 <= j < before.len() && before[j] == Probe::Closed {
            cameras_found(before)
        } else if probes.last() == Probe::Opened {
            cameras_found(before).push(camera_name_of(probes.len() - 1))
        } else {
            cameras_found(before)
        }
    }
}

/// The first ten of a run of probes: no more camera numbers are looked at.
pub open spec fn probed(probes: Seq<Probe>) -> Seq<Probe> {
    if probes.len() <= CAMERA_PROBES {
        probes
    } else {
        probes.take(CAMERA_PROBES as int)
    }
}

/// Lists the cameras that a run of probes has found.
pub fn refresh_cameras(probes: &Vec<Probe>) -> (names: Vec<String>)
    ensures
        names@.map_values(|name: String| name@) == cameras_found(probed(probes@)),
{
    let mut names: Vec<String> = Vec::new();
    let mut i: usize = 0;
    let n: usize = if probes.len() <= CAMERA_PROBES {
        probes.len()
    } else {
        CAMERA_PROBES
    };
    let ghost looked = probed(probes@);
    assert(names@.map_values(|name: String| name@) =~= cameras_found(looked.take(0)));
    while i < n
        invariant
            i <= n,
            n <= CAMERA_PROBES,
            n <= probes.len(),
            looked == probed(probes@),
            looked.len() == n,
            forall|j: int| 0 <= j < i ==> looked[j] != Probe::Closed,
            names@.map_values(|name: String| name@) == cameras_found(looked.take(i as int)),
        decreases n - i,
    {
        let ghost upto = looked.take(i + 1);
        proof {
            assert(upto.drop_last() =~= looked.take(i as int));
            assert(upto.last() == looked[i as int]);
            assert(looked[i as int] == probes@[i as int]);
        }
        match probes[i] {
            Probe::Opened => {
                let name = camera_name(i);
                let ghost before = names@.map_values(|name: String| name@);
                names.push(name);
                assert(names@.map_values(|name: String| name@) =~= before.push(
                    camera_name_of(i as int),
                ));
            },
            Probe::Closed => {
                proof {
                    lemma_closed_ends_list(looked, i as int);
                }
                return names;
            },
            Probe::Failed => {},
        }
        i = i + 1;
    }
    proof {
        assert(looked.take(i as int) =~= looked);
    }
    names
}

/// Nothing is listed past the first camera that did not open.
proof fn lemma_closed_ends_list(probes: Seq<Probe>, at: int)
    requires
        0 <= at < probes.len(),
        probes[at] == Probe::Closed,
        forall|j: int| 0 <= j < at ==> probes[j] != Probe::Closed,
    ensures
        cameras_found(probes) == cameras_found(probes.take(at)),
    decreases probes.len() - at,
{
    if probes.len() == at + 1 {
        assert(probes.drop_last() =~= probes.take(at));
    } else {
        let before = probes.drop_last();
        assert(before[at] == Probe::Closed);
        lemma_closed_ends_list(before, at);
        assert(before.take(at) =~= probes.take(at));
    }
}

} // verus!
