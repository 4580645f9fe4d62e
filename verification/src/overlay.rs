//! The overlay's state and the decisions taken on it: what a hotkey does,
//! how a capture and an upload change the state, and what the window shows.

use vstd::prelude::*;
use crate::geometry::{inset, inset_fits, text_area, Rect};
use crate::hotkeys::{
    command_for_hotkey, command_of, Command, HOTKEY_ID_CAPTURE, HOTKEY_ID_MOVE_DOWN,
    HOTKEY_ID_MOVE_LEFT, HOTKEY_ID_MOVE_RIGHT, HOTKEY_ID_MOVE_UP, HOTKEY_ID_RESIZE_LARGER,
    HOTKEY_ID_RESIZE_SMALLER, HOTKEY_ID_SEND, HOTKEY_ID_START_OVER, HOTKEY_ID_TOGGLE,
};

verus! {

/// Text shown while a capture is being sent.
pub const SENDING_TEXT: &'static str = "Sending request to AI...";

/// Text shown when there is neither a reply nor a capture.
pub const WELCOME_TEXT: &'static str = "Welcome to Vibe Coder!\n\nCtrl+H: Capture\nCtrl+B: Toggle\nCtrl+Enter: Send\nCtrl+R: Reset\nCtrl+Arrows: Move\nCtrl +/-: Resize";

/// Reply shown when an upload found no capture to send.
pub const NO_CAPTURE_MESSAGE: &'static str = "Error: No image data was available to send.";

/// Start of the reply shown when the capture could not be encoded as PNG.
pub const PNG_ERROR_PREFIX: &'static str = "PNG Encoding Error: ";

/// Start of the reply shown when the request could not be sent.
pub const SEND_ERROR_PREFIX: &'static str = "Proxy Send Error: ";

/// Start of the reply shown when the proxy's answer could not be read.
pub const READ_ERROR_PREFIX: &'static str = "Proxy Response Error: ";

/// A screen capture: BGRA pixels, four bytes each, row by row from the top.
pub struct CapturedImage {
    pub pixels: Vec<u8>,
    pub width: i32,
    pub height: i32,
}

/// The mathematical value of a capture.
pub struct CaptureView {
    pub pixels: Seq<u8>,
    pub width: i32,
    pub height: i32,
}

impl View for CapturedImage {
    type V = CaptureView;

    open spec fn view(&self) -> CaptureView {
        CaptureView { pixels: self.pixels@, width: self.width, height: self.height }
    }
}

/// A capture as a screen grab produces it: a positive width and height and
/// exactly four bytes for each pixel.
pub open spec fn capture_complete(image: CaptureView) -> bool {
    &&& image.width > 0
    &&& image.height > 0
    &&& image.pixels.len() == 4 * image.width * image.height
}

impl CapturedImage {
    /// Whether the capture has a positive width and height and exactly four
    /// bytes for each pixel.
    pub fn is_complete(&self) -> (complete: bool)
        ensures
            complete == capture_complete(self@),
    {
        if self.width <= 0 || self.height <= 0 {
            return false;
        }
        let width = self.width as u128;
        let height = self.height as u128;
        assert(width * height < 0x4000_0000_0000_0000) by (nonlinear_arith)
            requires
                0 < width < 0x8000_0000,
                0 < height < 0x8000_0000,
        ;
        let expected: u128 = 4 * (width * height);
        assert(expected == 4 * self.width * self.height) by (nonlinear_arith)
            requires
                expected == 4 * (width * height),
                width == self.width,
                height == self.height,
        ;
        (self.pixels.len() as u128) == expected
    }

    /// A copy of the capture.
    pub fn duplicate(&self) -> (copy: CapturedImage)
        ensures
            copy@ == self@,
    {
        let pixels = self.pixels.clone();
        assert(pixels@ =~= self.pixels@);
        CapturedImage {
            pixels,
            width: self.width,
            height: self.height,
        }
    }
}

/// Why a request to encode or send the capture could not be prepared.
pub enum EncodeFailure {
    /// The pixel buffer is too small for the capture's dimensions.
    BufferRejected,
    /// The PNG encoder reported an error, with its text.
    Png(String),
}

/// How an upload ended.
pub enum UploadOutcome {
    /// There was no capture when the upload began.
    NoCapture,
    /// The capture could not be turned into a request.
    Unencodable(EncodeFailure),
    /// The request could not be sent; the error's text.
    SendFailed(String),
    /// The proxy's answer could not be read; the error's text.
    ReadFailed(String),
    /// The proxy answered with this text.
    Answered(String),
}

/// The overlay's state, shared between the window and the upload.
pub struct OverlayState {
    /// An upload is under way.
    pub sending: bool,
    /// The last capture, until a reply replaces it or the overlay starts over.
    pub captured: Option<CapturedImage>,
    /// The last reply or error message.
    pub response: Option<String>,
}

/// The mathematical value of the overlay's state.
pub struct OverlayView {
    pub sending: bool,
    pub captured: Option<CaptureView>,
    pub response: Option<Seq<char>>,
}

impl View for OverlayState {
    type V = OverlayView;

    open spec fn view(&self) -> OverlayView {
        OverlayView {
            sending: self.sending,
            captured: match self.captured {
                Some(image) => Some(image@),
                None => None,
            },
            response: match self.response {
                Some(text) => Some(text@),
                None => None,
            },
        }
    }
}

/// Every capture that the state holds is complete.
pub open spec fn holds_complete_capture(s: OverlayView) -> bool {
    s.captured matches Some(image) ==> capture_complete(image)
}

/// The state the overlay starts in, and returns to when it starts over.
pub open spec fn initial_view() -> OverlayView {
    OverlayView { sending: false, captured: None, response: None }
}

/// Why an upload hotkey was refused.
#[derive(Clone, Copy, Debug, PartialEq, Eq, Structural)]
pub enum UploadRefusal {
    AlreadySending,
    NoCapture,
}

/// What the window must do after a hotkey.
#[derive(Clone, Copy, Debug, PartialEq, Eq, Structural)]
pub enum HotkeyAction {
    /// Show the overlay if it is hidden, hide it if it is shown.
    ToggleVisibility,
    /// Capture the screen, then hand the capture to `store_capture`.
    CaptureScreen,
    /// An upload is under way: no capture now.
    RefuseCapture,
    /// Start an upload, beginning with `begin_upload`.
    StartUpload,
    /// No upload is started, for this reason.
    RefuseUpload(UploadRefusal),
    /// The state changed: redraw the window.
    Redraw,
    /// Move the window by this much.
    MoveWindow { dx: i32, dy: i32 },
    /// Grow the window by this much.
    ResizeWindow { dw: i32, dh: i32 },
    /// Not one of the overlay's hotkeys.
    Ignore,
}

/// What hotkey `id` makes the window do in state `s`.
pub open spec fn hotkey_action(s: OverlayView, id: i32) -> HotkeyAction {
    match command_of(id) {
        None => HotkeyAction::Ignore,
        Some(command) => match command {
            Command::ToggleVisibility => HotkeyAction::ToggleVisibility,
            Command::Capture => if s.sending {
                HotkeyAction::RefuseCapture
            } else {
                HotkeyAction::CaptureScreen
            },
            Command::Send => if s.sending {
                HotkeyAction::RefuseUpload(UploadRefusal::AlreadySending)
            } else if s.captured is None {
                HotkeyAction::RefuseUpload(UploadRefusal::NoCapture)
            } else {
                HotkeyAction::StartUpload
            },
            Command::StartOver => HotkeyAction::Redraw,
            Command::Move { dx, dy } => HotkeyAction::MoveWindow { dx, dy },
            Command::Resize { dw, dh } => HotkeyAction::ResizeWindow { dw, dh },
        },
    }
}

/// The state after hotkey `id` in state `s`: starting over clears it, every
/// other hotkey leaves it as it is.
pub open spec fn after_hotkey(s: OverlayView, id: i32) -> OverlayView {
    if command_of(id) == Some(Command::StartOver) {
        initial_view()
    } else {
        s
    }
}

/// The state after a new capture: the capture replaces the old one and the
/// last reply is dropped.
pub open spec fn after_capture(s: OverlayView, image: CaptureView) -> OverlayView {
    OverlayView { sending: s.sending, captured: Some(image), response: None }
}

/// The reply an upload's outcome puts on screen; `None` where it leaves the
/// last one in place.
pub open spec fn outcome_reply(outcome: UploadOutcome) -> Option<Seq<char>> {
    match outcome {
        UploadOutcome::NoCapture => Some(NO_CAPTURE_MESSAGE@),
        UploadOutcome::Unencodable(failure) => match failure {
            EncodeFailure::BufferRejected => None,
            EncodeFailure::Png(text) => Some(PNG_ERROR_PREFIX@ + text@),
        },
        UploadOutcome::SendFailed(text) => Some(SEND_ERROR_PREFIX@ + text@),
        UploadOutcome::ReadFailed(text) => Some(READ_ERROR_PREFIX@ + text@),
        UploadOutcome::Answered(text) => Some(text@),
    }
}

/// The state after an upload ends: it is no longer sending, its reply (if
/// it has one) is shown, and an answer from the proxy consumes the capture.
pub open spec fn after_upload(s: OverlayView, outcome: UploadOutcome) -> OverlayView {
    OverlayView {
        sending: false,
        captured: if outcome is Answered {
            None
        } else {
            s.captured
        },
        response: match outcome_reply(outcome) {
            Some(text) => Some(text),
            None => s.response,
        },
    }
}

/// What the window draws.
pub enum PaintPlan {
    /// This text, word-wrapped inside this rectangle.
    Text { text: String, area: Rect },
    /// The capture, scaled into the client area.
    Preview { width: i32, height: i32 },
}

/// The mathematical value of a paint plan.
pub enum PaintView {
    Text { text: Seq<char>, area: Rect },
    Preview { width: i32, height: i32 },
}

impl View for PaintPlan {
    type V = PaintView;

    open spec fn view(&self) -> PaintView {
        match self {
            PaintPlan::Text { text, area } => PaintView::Text { text: text@, area: *area },
            PaintPlan::Preview { width, height } => PaintView::Preview {
                width: *width,
                height: *height,
            },
        }
    }
}

/// What the window shows in state `s`, first of: the sending notice, the
/// last reply (inset from the edges), the capture, the welcome text.
pub open spec fn paint_content(s: OverlayView, client: Rect) -> PaintView {
    if s.sending {
        PaintView::Text { text: SENDING_TEXT@, area: client }
    } else if s.response is Some {
        PaintView::Text { text: s.response->Some_0, area: inset(client) }
    } else if s.captured is Some {
        PaintView::Preview {
            width: s.captured->Some_0.width,
            height: s.captured->Some_0.height,
        }
    } else {
        PaintView::Text { text: WELCOME_TEXT@, area: client }
    }
}

/// What showing or hiding the overlay takes.
#[derive(Clone, Copy, Debug, PartialEq, Eq, Structural)]
pub enum VisibilityAction {
    /// Hide the window.
    Hide,
    /// Show the window without taking the focus, and redraw it.
    ShowAndRedraw,
}

/// Whether the window is visible once `action` has been carried out.
pub open spec fn visible_after(action: VisibilityAction) -> bool {
    match action {
        VisibilityAction::Hide => false,
        VisibilityAction::ShowAndRedraw => true,
    }
}

/// What the toggle hotkey does to an overlay that is `visible` or not:
/// hide it if it is shown, show it if it is hidden.
pub open spec fn toggle_action(visible: bool) -> VisibilityAction {
    if visible {
        VisibilityAction::Hide
    } else {
        VisibilityAction::ShowAndRedraw
    }
}

/// The toggle hotkey hides a visible overlay and shows a hidden one.
pub fn visibility_action(visible: bool) -> (action: VisibilityAction)
    ensures
        action == toggle_action(visible),
        visible_after(action) == !visible,
{
    if visible {
        VisibilityAction::Hide
    } else {
        VisibilityAction::ShowAndRedraw
    }
}

/// `prefix` followed by `detail`.
fn message(prefix: &str, detail: &String) -> (text: String)
    ensures
        text@ == prefix@ + detail@,
{
    let mut text = String::from_str(prefix);
    text.append(detail.as_str());
    text
}

impl OverlayState {
    /// The state at start-up: not sending, no capture, no reply.
    pub fn new() -> (state: OverlayState)
        ensures
            state@ == initial_view(),
            holds_complete_capture(state@),
    {
        OverlayState { sending: false, captured: None, response: None }
    }

    /// Decides what hotkey `id` does; starting over also clears the state.
    pub fn handle_hotkey(&mut self, id: i32) -> (action: HotkeyAction)
        ensures
            action == hotkey_action(old(self)@, id),
            final(self)@ == after_hotkey(old(self)@, id),
            holds_complete_capture(old(self)@) ==> holds_complete_capture(final(self)@),
    {
        match command_for_hotkey(id) {
            None => HotkeyAction::Ignore,
            Some(command) => match command {
                Command::ToggleVisibility => HotkeyAction::ToggleVisibility,
                Command::Capture => if self.sending {
                    HotkeyAction::RefuseCapture
                } else {
                    HotkeyAction::CaptureScreen
                },
                Command::Send => if self.sending {
                    HotkeyAction::RefuseUpload(UploadRefusal::AlreadySending)
                } else if self.captured.is_none() {
                    HotkeyAction::RefuseUpload(UploadRefusal::NoCapture)
                } else {
                    HotkeyAction::StartUpload
                },
                Command::StartOver => {
                    self.reset();
                    HotkeyAction::Redraw
                },
                Command::Move { dx, dy } => HotkeyAction::MoveWindow { dx, dy },
                Command::Resize { dw, dh } => HotkeyAction::ResizeWindow { dw, dh },
            },
        }
    }

    /// Drops the capture and the reply and stops counting an upload as under
    /// way; done when the overlay starts over and when its window is destroyed.
    pub fn reset(&mut self)
        ensures
            final(self)@ == initial_view(),
            holds_complete_capture(final(self)@),
    {
        self.captured = None;
        self.response = None;
        self.sending = false;
    }

    /// Keeps a new, complete capture in place of the old one and drops the
    /// last reply.
    pub fn store_capture(&mut self, image: CapturedImage)
        requires
            capture_complete(image@),
        ensures
            final(self)@ == after_capture(old(self)@, image@),
            holds_complete_capture(final(self)@),
    {
        self.captured = Some(image);
        self.response = None;
    }

    /// Marks an upload as under way and hands out a copy of the capture to
    /// send, if there is one.
    pub fn begin_upload(&mut self) -> (snapshot: Option<CapturedImage>)
        ensures
            final(self)@ == (OverlayView { sending: true, ..old(self)@ }),
            snapshot is Some <==> old(self)@.captured is Some,
            snapshot matches Some(image) ==> Some(image@) == old(self)@.captured,
            holds_complete_capture(old(self)@) ==> holds_complete_capture(final(self)@),
            holds_complete_capture(old(self)@) ==> (snapshot matches Some(image) ==> capture_complete(
                image@,
            )),
    {
        self.sending = true;
        match &self.captured {
            Some(image) => Some(image.duplicate()),
            None => None,
        }
    }

    /// Records how an upload ended and marks it as no longer under way.
    pub fn finish_upload(&mut self, outcome: UploadOutcome)
        ensures
            final(self)@ == after_upload(old(self)@, outcome),
            holds_complete_capture(old(self)@) ==> holds_complete_capture(final(self)@),
    {
        let answered = match &outcome {
            UploadOutcome::Answered(_) => true,
            _ => false,
        };
        let reply: Option<String> = match outcome {
            UploadOutcome::NoCapture => Some(String::from_str(NO_CAPTURE_MESSAGE)),
            UploadOutcome::Unencodable(failure) => match failure {
                EncodeFailure::BufferRejected => None,
                EncodeFailure::Png(text) => Some(message(PNG_ERROR_PREFIX, &text)),
            },
            UploadOutcome::SendFailed(text) => Some(message(SEND_ERROR_PREFIX, &text)),
            UploadOutcome::ReadFailed(text) => Some(message(READ_ERROR_PREFIX, &text)),
            UploadOutcome::Answered(text) => Some(text),
        };
        if answered {
            self.captured = None;
        }
        match reply {
            Some(text) => {
                self.response = Some(text);
            },
            None => {},
        }
        self.sending = false;
    }

    /// What to draw in a client area of `client`.
    pub fn paint_plan(&self, client: Rect) -> (plan: PaintPlan)
        requires
            !self.sending && self.response is Some ==> inset_fits(client),
        ensures
            plan@ == paint_content(self@, client),
    {
        if self.sending {
            PaintPlan::Text { text: String::from_str(SENDING_TEXT), area: client }
        } else {
            match &self.response {
                Some(text) => PaintPlan::Text { text: text.clone(), area: text_area(client) },
                None => match &self.captured {
                    Some(image) => PaintPlan::Preview { width: image.width, height: image.height },
                    None => PaintPlan::Text { text: String::from_str(WELCOME_TEXT), area: client },
                },
            }
        }
    }
}

/// Starting over, from any state, clears the overlay back to its start-up
/// state, asks for a redraw, and leaves the welcome text on screen.
pub proof fn lemma_start_over_shows_welcome(s: OverlayView, client: Rect)
    ensures
        hotkey_action(s, HOTKEY_ID_START_OVER) == HotkeyAction::Redraw,
        after_hotkey(s, HOTKEY_ID_START_OVER) == initial_view(),
        paint_content(after_hotkey(s, HOTKEY_ID_START_OVER), client) == (PaintView::Text {
            text: WELCOME_TEXT@,
            area: client,
        }),
{
}

/// Every hotkey but the one that starts over leaves the state unchanged.
pub proof fn lemma_other_hotkeys_keep_state(s: OverlayView, id: i32)
    requires
        id != HOTKEY_ID_START_OVER,
    ensures
        after_hotkey(s, id) == s,
{
}

/// An upload starts only from the send hotkey, only with a capture at hand,
/// and never while another one is under way.
pub proof fn lemma_upload_needs_capture(s: OverlayView, id: i32)
    ensures
        hotkey_action(s, id) == HotkeyAction::StartUpload <==> (id == HOTKEY_ID_SEND && !s.sending
            && s.captured is Some),
{
}

/// No screen capture is taken while an upload is under way.
pub proof fn lemma_no_capture_while_sending(s: OverlayView, id: i32)
    requires
        s.sending,
    ensures
        hotkey_action(s, id) != HotkeyAction::CaptureScreen,
{
}

/// While an upload is under way the window shows the sending notice over
/// the whole client area.
pub proof fn lemma_sending_notice_while_sending(s: OverlayView, client: Rect)
    requires
        s.sending,
    ensures
        paint_content(s, client) == (PaintView::Text { text: SENDING_TEXT@, area: client }),
{
}

/// However an upload ends, none is under way afterwards; only an answer
/// from the proxy consumes the capture, so after any failure it can be sent
/// again.
pub proof fn lemma_upload_always_ends(s: OverlayView, outcome: UploadOutcome)
    ensures
        !after_upload(s, outcome).sending,
        !(outcome is Answered) ==> after_upload(s, outcome).captured == s.captured,
{
}

/// An answer from the proxy is shown, inset from the client's edges, in
/// place of the capture, which is dropped.
pub proof fn lemma_answer_is_shown(s: OverlayView, answer: String, client: Rect)
    ensures
        after_upload(s, UploadOutcome::Answered(answer)).captured is None,
        paint_content(after_upload(s, UploadOutcome::Answered(answer)), client) == (PaintView::Text {
            text: answer@,
            area: inset(client),
        }),
{
}

/// A capture stored while no upload is under way replaces any reply on
/// screen with its preview.
pub proof fn lemma_capture_is_previewed(s: OverlayView, image: CaptureView, client: Rect)
    requires
        !s.sending,
    ensures
        paint_content(after_capture(s, image), client) == (PaintView::Preview {
            width: image.width,
            height: image.height,
        }),
{
}

/// Whatever hotkeys, captures and uploads come, a capture the overlay holds
/// is always complete: the start-up state holds none, only a complete
/// capture is stored, and no other step puts one in.
pub proof fn lemma_held_capture_is_complete(
    s: OverlayView,
    id: i32,
    image: CaptureView,
    outcome: UploadOutcome,
)
    ensures
        holds_complete_capture(initial_view()),
        capture_complete(image) ==> holds_complete_capture(after_capture(s, image)),
        holds_complete_capture(s) ==> holds_complete_capture(after_hotkey(s, id)),
        holds_complete_capture(s) ==> holds_complete_capture(after_upload(s, outcome)),
        holds_complete_capture(s) ==> holds_complete_capture(OverlayView { sending: true, ..s }),
{
}

/// Toggling flips the overlay's visibility, and toggling twice restores it.
pub proof fn lemma_toggle_twice_restores(visible: bool)
    ensures
        visible_after(toggle_action(visible)) == !visible,
        visible_after(toggle_action(visible_after(toggle_action(visible)))) == visible,
{
}

/// What each hotkey does, in every state: Ctrl+B toggles the overlay; Ctrl+H
/// captures unless an upload is under way; Ctrl+Enter uploads only with a
/// capture and none under way; Ctrl+R starts over; the arrows move the
/// window 10 pixels in their direction; Ctrl+Plus and Ctrl+Minus grow and
/// shrink it by 20 pixels each way; any other identifier is ignored.
pub proof fn lemma_hotkey_effects(s: OverlayView, id: i32)
    ensures
        hotkey_action(s, HOTKEY_ID_TOGGLE) == HotkeyAction::ToggleVisibility,
        !s.sending ==> hotkey_action(s, HOTKEY_ID_CAPTURE) == HotkeyAction::CaptureScreen,
        s.sending ==> hotkey_action(s, HOTKEY_ID_CAPTURE) == HotkeyAction::RefuseCapture,
        s.sending ==> hotkey_action(s, HOTKEY_ID_SEND) == HotkeyAction::RefuseUpload(
            UploadRefusal::AlreadySending,
        ),
        !s.sending && s.captured is None ==> hotkey_action(s, HOTKEY_ID_SEND)
            == HotkeyAction::RefuseUpload(UploadRefusal::NoCapture),
        !s.sending && s.captured is Some ==> hotkey_action(s, HOTKEY_ID_SEND)
            == HotkeyAction::StartUpload,
        hotkey_action(s, HOTKEY_ID_START_OVER) == HotkeyAction::Redraw,
        hotkey_action(s, HOTKEY_ID_MOVE_LEFT) == (HotkeyAction::MoveWindow { dx: -10i32, dy: 0 }),
        hotkey_action(s, HOTKEY_ID_MOVE_RIGHT) == (HotkeyAction::MoveWindow { dx: 10, dy: 0 }),
        hotkey_action(s, HOTKEY_ID_MOVE_UP) == (HotkeyAction::MoveWindow { dx: 0, dy: -10i32 }),
        hotkey_action(s, HOTKEY_ID_MOVE_DOWN) == (HotkeyAction::MoveWindow { dx: 0, dy: 10 }),
        hotkey_action(s, HOTKEY_ID_RESIZE_LARGER) == (HotkeyAction::ResizeWindow {
            dw: 20,
            dh: 20,
        }),
        hotkey_action(s, HOTKEY_ID_RESIZE_SMALLER) == (HotkeyAction::ResizeWindow {
            dw: -20i32,
            dh: -20i32,
        }),
        (id < 1 || id > 10) ==> hotkey_action(s, id) == HotkeyAction::Ignore && after_hotkey(s, id)
            == s,
{
}

/// A moving or resizing hotkey does exactly what its command says, and
/// every hotkey but capture and send acts the same whatever the state: only
/// those two look at whether an upload is under way or a capture is held.
pub proof fn lemma_hotkeys_follow_commands(s: OverlayView, t: OverlayView, id: i32)
    ensures
        command_of(id) matches Some(Command::Move { dx, dy }) ==> hotkey_action(s, id)
            == (HotkeyAction::MoveWindow { dx, dy }),
        command_of(id) matches Some(Command::Resize { dw, dh }) ==> hotkey_action(s, id)
            == (HotkeyAction::ResizeWindow { dw, dh }),
        id != HOTKEY_ID_CAPTURE && id != HOTKEY_ID_SEND ==> hotkey_action(s, id) == hotkey_action(
            t,
            id,
        ),
        s.sending == t.sending ==> hotkey_action(s, HOTKEY_ID_CAPTURE) == hotkey_action(
            t,
            HOTKEY_ID_CAPTURE,
        ),
{
}

/// The reply each way an upload can end leaves on screen: the answer itself;
/// the send error, the read error and the PNG error each behind their own
/// prefix; the missing-capture message; and, for a buffer that does not
/// fill the capture, the earlier reply unchanged.
pub proof fn lemma_upload_replies(s: OverlayView, text: String)
    ensures
        after_upload(s, UploadOutcome::Answered(text)).response == Some(text@),
        after_upload(s, UploadOutcome::SendFailed(text)).response == Some(
            "Proxy Send Error: "@ + text@,
        ),
        after_upload(s, UploadOutcome::ReadFailed(text)).response == Some(
            "Proxy Response Error: "@ + text@,
        ),
        after_upload(s, UploadOutcome::Unencodable(EncodeFailure::Png(text))).response == Some(
            "PNG Encoding Error: "@ + text@,
        ),
        after_upload(s, UploadOutcome::NoCapture).response == Some(
            "Error: No image data was available to send."@,
        ),
        after_upload(s, UploadOutcome::Unencodable(EncodeFailure::BufferRejected)).response
            == s.response,
{
}

} // verus!
