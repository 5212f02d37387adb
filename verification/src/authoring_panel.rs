//! The demonstration authoring panel: it starts sessions, routes the live
//! view's gestures to the session, and injects a recorded tap into the game
//! window only when injection is switched on and the tap was recorded.
//!
//! Injection goes through [`AuthoringInputInjector`], which the host
//! implements. Turning a frame pixel into a window pixel is floating-point
//! work done outside, handed in as `to_client`.
use vstd::prelude::*;
use vstd::string::*;

use crate::authoring::{
    confirm_result, error_text, same_except_gestures, same_session, undone, AuthoringError, AuthoringSession,
    GestureOutcome,
};
use crate::studio_task::ScreenRegion;
use crate::text::{dec, is_blank, owned, push_dec, trim_seq, trim_str};

verus! {

/// Scenario name used when the name field is blank.
pub const DEFAULT_AUTHORING_NAME: &'static str = "MyFirstAuthoredRun";

/// Injects clicks into the game window.
pub trait AuthoringInputInjector {
    /// The clicks delivered to the window so far, oldest first.
    spec fn clicks(&self) -> Seq<(i32, i32)>;

    /// Clicks at a client-area position of the target window: on `Ok` the
    /// click was delivered; the error text says why nothing was injected.
    fn click(&mut self, pos: (i32, i32)) -> (r: Result<(), String>)
        ensures
            r is Ok ==> final(self).clicks() == old(self).clicks().push(pos),
            r is Err ==> final(self).clicks() == old(self).clicks(),
    ;
}

/// An injector that only records the clicks (for tests).
#[derive(Debug)]
pub struct RecordingInjector {
    /// The clicks injected, in order.
    pub clicks: Vec<(i32, i32)>,
    /// Makes the next click fail.
    pub fail_next: bool,
}

impl RecordingInjector {
    /// An injector with no click recorded.
    pub fn new() -> (r: RecordingInjector)
        ensures
            r.clicks@.len() == 0,
            !r.fail_next,
    {
        RecordingInjector { clicks: Vec::new(), fail_next: false }
    }
}

impl Default for RecordingInjector {
    fn default() -> (r: RecordingInjector)
        ensures
            r.clicks@.len() == 0,
            !r.fail_next,
    {
        RecordingInjector::new()
    }
}

impl AuthoringInputInjector for RecordingInjector {
    open spec fn clicks(&self) -> Seq<(i32, i32)> {
        self.clicks@
    }

    /// Fails once when asked to, else records the click.
    fn click(&mut self, pos: (i32, i32)) -> (r: Result<(), String>)
        ensures
            old(self).fail_next ==> r is Err && !final(self).fail_next && final(self).clicks@ == old(
                self,
            ).clicks@,
            !old(self).fail_next ==> r is Ok && !final(self).fail_next && final(self).clicks@ == old(
                self,
            ).clicks@.push(pos),
    {
        if self.fail_next {
            self.fail_next = false;
            return Err(owned("recording injector: 注入失敗 (テスト)"));
        }
        self.clicks.push(pos);
        Ok(())
    }
}

/// An injector for hosts that cannot inject: every click fails with the
/// reason given.
#[derive(Debug)]
pub struct UnavailableAuthoringInjector {
    reason: String,
}

impl UnavailableAuthoringInjector {
    /// The failure reason.
    pub closed spec fn reason_view(&self) -> Seq<char> {
        self.reason@
    }

    /// An injector failing with `reason`.
    pub fn new(reason: &str) -> (r: UnavailableAuthoringInjector)
        ensures
            r.reason_view() == reason@,
    {
        UnavailableAuthoringInjector { reason: owned(reason) }
    }
}

impl AuthoringInputInjector for UnavailableAuthoringInjector {
    open spec fn clicks(&self) -> Seq<(i32, i32)> {
        Seq::empty()
    }

    /// Always fails with the reason.
    fn click(&mut self, pos: (i32, i32)) -> (r: Result<(), String>)
        ensures
            r is Err,
            r->Err_0@ == old(self).reason_view(),
            final(self).reason_view() == old(self).reason_view(),
    {
        Err(self.reason.clone())
    }
}

/// The region being dragged on the canvas (frame pixels).
#[derive(Debug, Clone, Copy, PartialEq, Eq)]
pub struct RoiEdit {
    /// Where the drag started.
    pub anchor: Option<(u32, u32)>,
    /// Where the pointer is now.
    pub current: Option<(u32, u32)>,
    /// Whether a drag is in progress this frame.
    pub dragging: bool,
}

impl Default for RoiEdit {
    fn default() -> (r: RoiEdit)
        ensures
            r.anchor is None,
            r.current is None,
            !r.dragging,
    {
        RoiEdit { anchor: None, current: None, dragging: false }
    }
}

/// The rectangle spanned by two corners, when it has a positive area.
pub open spec fn rect_spec(a: (u32, u32), c: (u32, u32)) -> Option<ScreenRegion> {
    let x0 = if a.0 < c.0 { a.0 } else { c.0 };
    let y0 = if a.1 < c.1 { a.1 } else { c.1 };
    let x1 = if a.0 < c.0 { c.0 } else { a.0 };
    let y1 = if a.1 < c.1 { c.1 } else { a.1 };
    if x1 <= x0 || y1 <= y0 {
        None
    } else {
        Some(ScreenRegion { x: x0, y: y0, width: (x1 - x0) as u32, height: (y1 - y0) as u32 })
    }
}

/// The selected rectangle of a drag state.
pub open spec fn roi_rect(r: RoiEdit) -> Option<ScreenRegion> {
    match (r.anchor, r.current) {
        (Some(a), Some(c)) => rect_spec(a, c),
        _ => None,
    }
}

/// A drag state after one frame of pointer input (see
/// [`RoiEdit::observe_pointer`]).
pub open spec fn observe_spec(r: RoiEdit, started: bool, dragged: bool, pos: Option<(u32, u32)>) -> RoiEdit {
    RoiEdit {
        anchor: if started {
            pos
        } else {
            r.anchor
        },
        current: if started || (dragged && pos is Some) {
            pos
        } else {
            r.current
        },
        dragging: dragged,
    }
}

/// A region loaded as a proposal is the region selected, when it has an
/// area; an empty one selects nothing.
pub proof fn law_proposal_round_trip(roi: ScreenRegion)
    requires
        roi.x + roi.width <= u32::MAX,
        roi.y + roi.height <= u32::MAX,
    ensures
        roi_rect(
            RoiEdit {
                anchor: Some((roi.x, roi.y)),
                current: Some(((roi.x + roi.width) as u32, (roi.y + roi.height) as u32)),
                dragging: false,
            },
        ) == if roi.width > 0 && roi.height > 0 {
            Some(roi)
        } else {
            None
        },
{
}

/// Pressing at `a` and dragging to `c`, whatever came before and however
/// many frames the pointer spent off the image on the way, selects the
/// rectangle spanned by `a` and `c`.
pub proof fn law_drag_selects_span(r: RoiEdit, a: (u32, u32), c: (u32, u32))
    ensures
        roi_rect(observe_spec(observe_spec(observe_spec(r, true, true, Some(a)), false, true, None), false, true, Some(c)))
            == rect_spec(a, c),
        roi_rect(observe_spec(r, true, true, Some(a))) == rect_spec(a, a),
        rect_spec(a, a) is None,
{
}

/// `r` is the window position found for a tap at frame pixel `pos` on panel
/// `p`: an error while the frame or the client size is unknown, otherwise
/// what `to_client` gave for the tap and the two sizes.
pub open spec fn client_answer<G: FnOnce((u32, u32), (u32, u32), (u32, u32)) -> Result<(i32, i32), String>>(
    p: AuthoringPanel,
    pos: (u32, u32),
    to_client: G,
    r: Result<(i32, i32), String>,
) -> bool {
    match (p.frame_view(), p.client_view()) {
        (None, _) => r is Err && r->Err_0@ == "フレーム未取得のため注入座標を決定できません"@,
        (Some(_), None) => r is Err && r->Err_0@ == "生キャプチャ寸法が未取得のため注入座標を決定できません"@,
        (Some(f), Some(c)) => call_ensures(to_client, (pos, f, c), r),
    }
}

impl RoiEdit {
    /// The selected rectangle: both corners known and a positive area.
    pub fn rect(&self) -> (r: Option<ScreenRegion>)
        ensures
            r == roi_rect(*self),
    {
        let (a, c) = match (self.anchor, self.current) {
            (Some(a), Some(c)) => (a, c),
            _ => {
                return None;
            },
        };
        let x0 = if a.0 < c.0 {
            a.0
        } else {
            c.0
        };
        let y0 = if a.1 < c.1 {
            a.1
        } else {
            c.1
        };
        let x1 = if a.0 < c.0 {
            c.0
        } else {
            a.0
        };
        let y1 = if a.1 < c.1 {
            c.1
        } else {
            a.1
        };
        if x1 <= x0 || y1 <= y0 {
            return None;
        }
        Some(ScreenRegion::new(x0, y0, x1 - x0, y1 - y0))
    }

    /// Loads a proposed region as a finished drag: its top-left corner and
    /// its far corner (right, bottom), so that [`RoiEdit::rect`] gives the
    /// region back.
    pub fn apply_proposal(&mut self, roi: ScreenRegion)
        requires
            roi.x + roi.width <= u32::MAX,
            roi.y + roi.height <= u32::MAX,
        ensures
            final(self).anchor == Some((roi.x, roi.y)),
            final(self).current == Some(((roi.x + roi.width) as u32, (roi.y + roi.height) as u32)),
            !final(self).dragging,
    {
        self.anchor = Some((roi.x, roi.y));
        self.current = Some((roi.x + roi.width, roi.y + roi.height));
        self.dragging = false;
    }

    /// One frame of pointer input on the canvas: `started` when a drag
    /// began in this frame, `dragged` while one goes on, and `pos` the
    /// pointer in frame pixels (none off the image). A new drag puts both
    /// corners at the pointer; a drag moves the second corner along.
    pub fn observe_pointer(&mut self, started: bool, dragged: bool, pos: Option<(u32, u32)>)
        ensures
            *final(self) == observe_spec(*old(self), started, dragged, pos),
    {
        self.dragging = dragged;
        if started {
            self.anchor = pos;
            self.current = pos;
        }
        if dragged {
            if let Some(p) = pos {
                self.current = Some(p);
            }
        }
    }
}

/// What the panel did with a gesture.
#[derive(Debug, Clone, PartialEq, Eq)]
pub enum PanelGesture {
    /// No session was started: the gesture was dropped.
    Discarded,
    /// The gesture was handled.
    Handled {
        /// What the session made of it.
        outcome: GestureOutcome,
        /// Why the session refused it (it is then left as it was).
        record_error: Option<String>,
        /// Whether a click was injected.
        injected: bool,
        /// Why injection failed.
        inject_error: Option<String>,
    },
}

/// The status line after a gesture of `kind` was recorded.
pub open spec fn gesture_status_spec(
    kind: Seq<char>,
    outcome: GestureOutcome,
    injected: bool,
    inject_error: Option<Seq<char>>,
) -> Seq<char> {
    (match outcome {
        GestureOutcome::Pending => kind + "を記録しました (もう一方のジェスチャ待ち)"@,
        GestureOutcome::Confirmed { warnings } => "ステップ確定 ("@ + kind + ") — 警告 "@ + dec(
            warnings@.len(),
        ) + " 件"@,
    }) + (if injected {
        " / 実機へ注入しました"@
    } else {
        ""@
    }) + match inject_error {
        Some(e) => " / 注入失敗: "@ + e,
        None => ""@,
    }
}

/// The status line after a gesture (see [`gesture_status_spec`]).
pub fn gesture_status(kind: &str, outcome: &GestureOutcome, injected: bool, inject_error: Option<&str>) -> (r:
    String)
    ensures
        r@ == gesture_status_spec(
            kind@,
            *outcome,
            injected,
            match inject_error {
                Some(e) => Some(e@),
                None => None,
            },
        ),
{
    let mut s = match outcome {
        GestureOutcome::Pending => {
            let mut s = owned(kind);
            s.append("を記録しました (もう一方のジェスチャ待ち)");
            s
        },
        GestureOutcome::Confirmed { warnings } => {
            let mut s = String::from_str("ステップ確定 (");
            s.append(kind);
            s.append(") — 警告 ");
            push_dec(&mut s, warnings.len() as u64);
            s.append(" 件");
            s
        },
    };
    let ghost head = s@;
    if injected {
        s.append(" / 実機へ注入しました");
    }
    proof {
        reveal_strlit("");
        assert(s@ =~= head + (if injected {
            " / 実機へ注入しました"@
        } else {
            ""@
        }));
    }
    let ghost mid = s@;
    match inject_error {
        Some(e) => {
            s.append(" / 注入失敗: ");
            s.append(e);
        },
        None => {},
    }
    proof {
        assert(s@ =~= mid + match inject_error {
            Some(e) => " / 注入失敗: "@ + e@,
            None => ""@,
        });
    }
    s
}

/// The status line when no session was started.
pub open spec fn not_started_status() -> Seq<char> {
    "セッション未開始: 先に「記録開始」してください"@
}

/// The authoring panel.
#[derive(Debug)]
pub struct AuthoringPanel {
    inject_enabled: bool,
    name: String,
    session: Option<AuthoringSession>,
    region_drag: RoiEdit,
    frame_dims: Option<(u32, u32)>,
    client_dims: Option<(u32, u32)>,
    status: String,
}

impl AuthoringPanel {
    /// The scenario name field.
    pub closed spec fn name_text(&self) -> Seq<char> {
        self.name@
    }

    /// The status line.
    pub closed spec fn status_text(&self) -> Seq<char> {
        self.status@
    }

    /// Whether injection is switched on.
    pub closed spec fn injecting(&self) -> bool {
        self.inject_enabled
    }

    /// The session, once started.
    pub closed spec fn session_view(&self) -> Option<AuthoringSession> {
        self.session
    }

    /// The region being dragged.
    pub closed spec fn drag_view(&self) -> RoiEdit {
        self.region_drag
    }

    /// The size of the last frame pushed.
    pub closed spec fn frame_view(&self) -> Option<(u32, u32)> {
        self.frame_dims
    }

    /// The size of the window's client area at the last frame.
    pub closed spec fn client_view(&self) -> Option<(u32, u32)> {
        self.client_dims
    }

    /// A panel with injection off, the default scenario name and no session.
    pub fn new() -> (p: AuthoringPanel)
        ensures
            !p.injecting(),
            p.name_text() == DEFAULT_AUTHORING_NAME@,
            p.session_view() is None,
            p.frame_view() is None,
            p.client_view() is None,
            p.status_text() == "「記録開始」後にライブビューをクリック (タップ) / ドラッグ (認識領域)"@,
    {
        AuthoringPanel {
            inject_enabled: false,
            name: owned(DEFAULT_AUTHORING_NAME),
            session: None,
            region_drag: RoiEdit::default(),
            frame_dims: None,
            client_dims: None,
            status: owned("「記録開始」後にライブビューをクリック (タップ) / ドラッグ (認識領域)"),
        }
    }

    /// Whether injection is switched on.
    pub fn inject_enabled(&self) -> (r: bool)
        ensures
            r == self.injecting(),
    {
        self.inject_enabled
    }

    /// Switches injection on or off and says so in the status line.
    pub fn set_inject_enabled(&mut self, enabled: bool)
        ensures
            final(self).injecting() == enabled,
            final(self).status_text() == if enabled {
                "オーサリングモード有効: クリックが実機 (PC版ウィンドウ) へ注入されます"@
            } else {
                "入力注入を無効にしました (記録のみ行います)"@
            },
            final(self).session_view() == old(self).session_view(),
            final(self).name_text() == old(self).name_text(),
    {
        self.inject_enabled = enabled;
        self.status = if enabled {
            owned("オーサリングモード有効: クリックが実機 (PC版ウィンドウ) へ注入されます")
        } else {
            owned("入力注入を無効にしました (記録のみ行います)")
        };
    }

    /// The scenario name field.
    pub fn name(&self) -> (r: &str)
        ensures
            r@ == self.name_text(),
    {
        self.name.as_str()
    }

    /// Sets the scenario name field.
    pub fn set_name(&mut self, name: &str)
        ensures
            final(self).name_text() == name@,
            final(self).session_view() == old(self).session_view(),
            final(self).injecting() == old(self).injecting(),
    {
        self.name = owned(name);
    }

    /// Whether a session was started.
    pub fn is_started(&self) -> (r: bool)
        ensures
            r == self.session_view() is Some,
    {
        self.session.is_some()
    }

    /// The session, once started.
    pub fn session(&self) -> (r: Option<&AuthoringSession>)
        ensures
            match r {
                Some(s) => self.session_view() == Some(*s),
                None => self.session_view() is None,
            },
    {
        match &self.session {
            Some(s) => Some(s),
            None => None,
        }
    }

    /// The region being dragged.
    pub fn region_drag(&self) -> (r: RoiEdit)
        ensures
            r == self.drag_view(),
    {
        self.region_drag
    }

    /// Replaces the region being dragged.
    pub fn set_region_drag(&mut self, roi: RoiEdit)
        ensures
            final(self).drag_view() == roi,
            final(self).session_view() == old(self).session_view(),
            final(self).injecting() == old(self).injecting(),
    {
        self.region_drag = roi;
    }

    /// The status line.
    pub fn status(&self) -> (r: &str)
        ensures
            r@ == self.status_text(),
    {
        self.status.as_str()
    }

    /// Starts a new session named after the trimmed name field (the default
    /// name when it is blank), dropping any earlier steps.
    pub fn start_session(&mut self)
        ensures
            final(self).name_text() == (if trim_seq(old(self).name_text()).len() == 0 {
                DEFAULT_AUTHORING_NAME@
            } else {
                trim_seq(old(self).name_text())
            }),
            final(self).session_view() matches Some(s) && s.name_view() == final(self).name_text() && s.steps_seq().len()
                == 0 && s.tap_view() is None && s.region_view() is None && s.frame_view() is None,
            final(self).status_text() == "記録開始: "@ + final(self).name_text()
                + " — クリックでタップ、ドラッグで認識領域 (両方で 1 ステップ確定)"@,
            final(self).injecting() == old(self).injecting(),
    {
        let name = if is_blank(self.name.as_str()) {
            owned(DEFAULT_AUTHORING_NAME)
        } else {
            trim_str(self.name.as_str())
        };
        self.session = Some(AuthoringSession::new(name.as_str()));
        let mut status = String::from_str("記録開始: ");
        status.append(name.as_str());
        status.append(" — クリックでタップ、ドラッグで認識領域 (両方で 1 ステップ確定)");
        self.status = status;
        self.name = name;
    }

    /// Takes a new live frame of `width` x `height`; `client` is the size of
    /// the window's client area it was captured from (when known).
    pub fn push_frame(&mut self, width: u32, height: u32, client: Option<(u32, u32)>)
        ensures
            final(self).frame_view() == Some((width, height)),
            final(self).client_view() == client,
            final(self).injecting() == old(self).injecting(),
            match (old(self).session_view(), final(self).session_view()) {
                (Some(a), Some(b)) => b.frame_view() == Some((width, height)) && same_except_frame(a, b),
                (None, None) => true,
                _ => false,
            },
    {
        self.frame_dims = Some((width, height));
        self.client_dims = client;
        match self.session.take() {
            Some(mut s) => {
                s.push_frame(width, height);
                self.session = Some(s);
            },
            None => {},
        }
    }

    /// The window position to inject a tap at `pos` (a frame pixel), from
    /// the frame and client sizes; `to_client` does the pixel arithmetic and
    /// explains when a size does not allow it.
    fn client_pos<G: FnOnce((u32, u32), (u32, u32), (u32, u32)) -> Result<(i32, i32), String>>(
        &self,
        pos: (u32, u32),
        to_client: G,
    ) -> (r: Result<(i32, i32), String>)
        requires
            forall|p: (u32, u32), f: (u32, u32), c: (u32, u32)| call_requires(to_client, (p, f, c)),
        ensures
            client_answer(*self, pos, to_client, r),
    {
        let frame = match self.frame_dims {
            Some(f) => f,
            None => {
                return Err(owned("フレーム未取得のため注入座標を決定できません"));
            },
        };
        let client = match self.client_dims {
            Some(c) => c,
            None => {
                return Err(owned("生キャプチャ寸法が未取得のため注入座標を決定できません"));
            },
        };
        to_client(pos, frame, client)
    }

    /// Handles a click on the live view at frame pixel `pos`: records the tap
    /// in the session and, only when that succeeded and injection is on,
    /// injects it at the window position `to_client` gives. Without a session
    /// the click is dropped.
    pub fn canvas_tap<
        I: AuthoringInputInjector,
        F: Fn([u32; 4]) -> Vec<String>,
        G: FnOnce((u32, u32), (u32, u32), (u32, u32)) -> Result<(i32, i32), String>,
    >(&mut self, pos: (u32, u32), injector: &mut I, inspect: &F, to_client: G) -> (r: PanelGesture)
        requires
            match old(self).session_view() {
                Some(s) => s.steps_seq().len() + 1 < u64::MAX,
                None => true,
            },
            forall|c: [u32; 4]| call_requires(*inspect, (c,)),
            forall|p: (u32, u32), f: (u32, u32), c: (u32, u32)| call_requires(to_client, (p, f, c)),
        ensures
            final(self).injecting() == old(self).injecting(),
            final(self).frame_view() == old(self).frame_view(),
            final(self).client_view() == old(self).client_view(),
            match old(self).session_view() {
                None => r == PanelGesture::Discarded && final(self).session_view() is None
                    && final(self).status_text() == not_started_status() && final(injector).clicks() == old(
                    injector,
                ).clicks(),
                Some(s) => match final(self).session_view() {
                    Some(t) => match r {
                        PanelGesture::Handled { outcome, record_error, injected, inject_error } => match record_error {
                            Some(e) => {
                                &&& outcome == GestureOutcome::Pending
                                &&& !injected
                                &&& inject_error is None
                                &&& final(injector).clicks() == old(injector).clicks()
                                &&& same_session(s, t)
                                &&& exists|err: AuthoringError|
                                    e@ == error_text(err) && final(self).status_text() == "タップ記録失敗: "@
                                        + error_text(err)
                            },
                            None => {
                                &&& confirm_result(s, Some(pos), s.region_view(), t, *inspect, Ok(outcome))
                                &&& (injected ==> old(self).injecting() && inject_error is None)
                                &&& (!old(self).injecting() ==> !injected && inject_error is None)
                                &&& (old(self).injecting() && !injected ==> inject_error is Some)
                                &&& (injected ==> exists|c: (i32, i32)|
                                    client_answer(*old(self), pos, to_client, Ok(c)) && final(injector).clicks() == old(
                                        injector,
                                    ).clicks().push(c))
                                &&& (!injected ==> final(injector).clicks() == old(injector).clicks())
                                &&& final(self).status_text() == gesture_status_spec(
                                    "タップ"@,
                                    outcome,
                                    injected,
                                    match inject_error {
                                        Some(e) => Some(e@),
                                        None => None,
                                    },
                                )
                            },
                        },
                        PanelGesture::Discarded => false,
                    },
                    None => false,
                },
            },
    {
        let client = self.client_pos(pos, to_client);
        let mut session = match self.session.take() {
            Some(s) => s,
            None => {
                self.status = owned("セッション未開始: 先に「記録開始」してください");
                return PanelGesture::Discarded;
            },
        };
        let record = session.record_tap(pos, inspect);
        self.session = Some(session);
        let outcome = match record {
            Ok(g) => g,
            Err(e) => {
                let msg = e.message();
                let mut status = String::from_str("タップ記録失敗: ");
                status.append(msg.as_str());
                self.status = status;
                return PanelGesture::Handled {
                    outcome: GestureOutcome::Pending,
                    record_error: Some(msg),
                    injected: false,
                    inject_error: None,
                };
            },
        };
        let mut injected = false;
        let mut inject_error: Option<String> = None;
        if self.inject_enabled {
            match client {
                Ok(c) => match injector.click(c) {
                    Ok(()) => {
                        injected = true;
                    },
                    Err(e) => {
                        inject_error = Some(e);
                    },
                },
                Err(e) => {
                    inject_error = Some(e);
                },
            }
        }
        let err_text: Option<&str> = match &inject_error {
            Some(e) => Some(e.as_str()),
            None => None,
        };
        self.status = gesture_status("タップ", &outcome, injected, err_text);
        PanelGesture::Handled { outcome, record_error: None, injected, inject_error }
    }

    /// Records a region dragged on the live view (frame pixels); a region is
    /// never injected. Without a session the region is dropped.
    pub fn canvas_region<F: Fn([u32; 4]) -> Vec<String>>(&mut self, roi: [u32; 4], inspect: &F) -> (r: PanelGesture)
        requires
            match old(self).session_view() {
                Some(s) => s.steps_seq().len() + 1 < u64::MAX,
                None => true,
            },
            forall|c: [u32; 4]| call_requires(*inspect, (c,)),
        ensures
            final(self).injecting() == old(self).injecting(),
            final(self).frame_view() == old(self).frame_view(),
            final(self).client_view() == old(self).client_view(),
            match old(self).session_view() {
                None => r == PanelGesture::Discarded && final(self).session_view() is None
                    && final(self).status_text() == not_started_status(),
                Some(s) => match final(self).session_view() {
                    Some(t) => match r {
                        PanelGesture::Handled { outcome, record_error, injected, inject_error } => {
                            &&& !injected
                            &&& inject_error is None
                            &&& match record_error {
                                Some(e) => {
                                    &&& outcome == GestureOutcome::Pending
                                    &&& same_session(s, t)
                                    &&& exists|err: AuthoringError|
                                        e@ == error_text(err) && final(self).status_text() == "領域記録失敗: "@
                                            + error_text(err)
                                },
                                None => {
                                    &&& confirm_result(s, s.tap_view(), Some(roi), t, *inspect, Ok(outcome))
                                    &&& final(self).status_text() == gesture_status_spec("領域"@, outcome, false, None)
                                },
                            }
                        },
                        PanelGesture::Discarded => false,
                    },
                    None => false,
                },
            },
    {
        let mut session = match self.session.take() {
            Some(s) => s,
            None => {
                self.status = owned("セッション未開始: 先に「記録開始」してください");
                return PanelGesture::Discarded;
            },
        };
        let record = session.record_region(roi, inspect);
        self.session = Some(session);
        match record {
            Ok(outcome) => {
                self.status = gesture_status("領域", &outcome, false, None);
                PanelGesture::Handled { outcome, record_error: None, injected: false, inject_error: None }
            },
            Err(e) => {
                let msg = e.message();
                let mut status = String::from_str("領域記録失敗: ");
                status.append(msg.as_str());
                self.status = status;
                PanelGesture::Handled {
                    outcome: GestureOutcome::Pending,
                    record_error: Some(msg),
                    injected: false,
                    inject_error: None,
                }
            },
        }
    }

    /// Undoes the last action of the session (see [`AuthoringSession::undo`]);
    /// returns whether anything was undone.
    pub fn undo(&mut self) -> (r: bool)
        ensures
            match old(self).session_view() {
                None => !r && final(self).session_view() is None,
                Some(s) => match final(self).session_view() {
                    Some(t) => undone(s, t, r),
                    None => false,
                },
            },
            r ==> final(self).status_text() == "取り消しました"@,
            !r ==> final(self).status_text() == old(self).status_text(),
            final(self).injecting() == old(self).injecting(),
            final(self).name_text() == old(self).name_text(),
            final(self).drag_view() == old(self).drag_view(),
            final(self).frame_view() == old(self).frame_view(),
            final(self).client_view() == old(self).client_view(),
    {
        let undone = match self.session.take() {
            Some(mut s) => {
                let u = s.undo();
                self.session = Some(s);
                u
            },
            None => false,
        };
        if undone {
            self.status = owned("取り消しました");
        }
        undone
    }

    /// Records how saving the session went: the directory and the number of
    /// warnings, or the error text. Returns `false`, with a hint in the status
    /// line, when no session was started.
    pub fn finish_save(&mut self, result: Result<(String, usize), String>) -> (r: bool)
        ensures
            r == old(self).session_view() is Some,
            !r ==> final(self).status_text() == "セッション未開始: 保存できるシナリオがありません"@,
            r ==> final(self).status_text() == match result {
                Ok((dir, n)) => "保存しました: "@ + dir@ + " (警告 "@ + dec(n as nat) + " 件)"@,
                Err(e) => "保存失敗: "@ + e@,
            },
            r ==> match (result, final(self).session_view()) {
                (Ok((dir, _)), Some(t)) => t.saved_view() == Some(dir@),
                (Err(_), Some(t)) => old(self).session_view() == Some(t),
                _ => false,
            },
            final(self).injecting() == old(self).injecting(),
    {
        let mut session = match self.session.take() {
            Some(s) => s,
            None => {
                self.status = owned("セッション未開始: 保存できるシナリオがありません");
                return false;
            },
        };
        match result {
            Ok((dir, n)) => {
                session.mark_saved(dir.as_str());
                let mut status = String::from_str("保存しました: ");
                status.append(dir.as_str());
                status.append(" (警告 ");
                push_dec(&mut status, n as u64);
                status.append(" 件)");
                self.status = status;
            },
            Err(e) => {
                let mut status = String::from_str("保存失敗: ");
                status.append(e.as_str());
                self.status = status;
            },
        }
        self.session = Some(session);
        true
    }
}

impl Default for AuthoringPanel {
    fn default() -> (p: AuthoringPanel)
        ensures
            !p.injecting(),
            p.name_text() == DEFAULT_AUTHORING_NAME@,
            p.session_view() is None,
    {
        AuthoringPanel::new()
    }
}

/// Two sessions agree on everything but the frame.
pub open spec fn same_except_frame(a: AuthoringSession, b: AuthoringSession) -> bool {
    &&& b.name_view() == a.name_view()
    &&& b.state_view() == a.state_view()
    &&& b.goal_view() == a.goal_view()
    &&& b.tap_view() == a.tap_view()
    &&& b.region_view() == a.region_view()
    &&& b.steps_seq() == a.steps_seq()
    &&& b.warnings_view() == a.warnings_view()
    &&& b.saved_view() == a.saved_view()
}

} // verus!
