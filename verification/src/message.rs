//! What the engine reads from the messages of a peer, and what it writes to one,
//! as plain values. Turning them into the bytes of the wire is done elsewhere.
use vstd::prelude::*;
use crate::control_key::ControlKey;

verus! {

/// A pointer event: a kind in the low three bits of `mask`, buttons above them.
#[derive(Debug, Clone, Copy, PartialEq, Eq, Structural)]
pub struct MouseEvent {
    pub mask: i32,
    pub x: i32,
    pub y: i32,
}

/// How the key of an event is to be understood.
#[derive(Debug, Clone, Copy, PartialEq, Eq, Structural)]
pub enum KeyboardMode {
    Legacy,
    MapKeys,
    Translate,
    Auto,
    /// A number that names no mode.
    Unknown,
}

/// What a key event is about.
#[derive(Debug, Clone, PartialEq, Eq)]
pub enum KeyPayload {
    /// Nothing at all.
    Absent,
    /// A whole string.
    Text(String),
    /// A control key, or a number that names none.
    Control(Option<ControlKey>),
    /// A character code.
    Chr(u32),
    /// Something this engine does not produce or accept.
    Unsupported,
}

/// A key event.
#[derive(Debug, Clone, PartialEq, Eq)]
pub struct KeyEvent {
    pub down: bool,
    pub press: bool,
    pub mode: KeyboardMode,
    pub payload: KeyPayload,
    pub modifiers: Vec<ControlKey>,
}

/// A round-trip probe. What it carries beside its direction is handed back as it
/// came.
#[derive(Debug, Clone, PartialEq, Eq)]
pub struct TestDelay {
    pub from_client: bool,
    pub payload: Vec<u8>,
}

/// One encoded frame.
#[derive(Debug, Clone, PartialEq, Eq)]
pub struct EncodedFrame {
    pub data: Vec<u8>,
    pub key: bool,
    /// Presentation time in milliseconds.
    pub pts: i64,
}

/// The frames of a video message.
#[derive(Debug, Clone, PartialEq, Eq)]
pub enum VideoPayload {
    H264(Vec<EncodedFrame>),
    H265(Vec<EncodedFrame>),
    /// Another codec, or nothing.
    Other,
}

/// A video message for one display.
#[derive(Debug, Clone, PartialEq, Eq)]
pub struct VideoFrame {
    pub display: i32,
    pub payload: VideoPayload,
}

/// One clipboard entry.
#[derive(Debug, Clone, PartialEq, Eq)]
pub struct Clipboard {
    /// Whether the entry is plain text.
    pub is_text: bool,
    pub compress: bool,
    pub content: Vec<u8>,
}

/// A permission that a peer reports.
#[derive(Debug, Clone, Copy, PartialEq, Eq, Structural)]
pub enum Permission {
    Keyboard,
    Clipboard,
    Other,
}

/// An image quality that a peer reports.
#[derive(Debug, Clone, Copy, PartialEq, Eq, Structural)]
pub enum ImageQuality {
    NotSet,
    Low,
    Balanced,
    Best,
    /// A number that names no quality.
    Unknown,
}

/// A display that a peer switches to, or a request for one.
#[derive(Debug, Clone, Copy, PartialEq, Eq, Structural)]
pub struct SwitchDisplay {
    pub display: i32,
    pub x: i32,
    pub y: i32,
    pub width: i32,
    pub height: i32,
}

/// Options that a peer reports or is asked for; zero leaves a number unset.
#[derive(Debug, Clone, Copy, PartialEq, Eq, Structural)]
pub struct OptionMessage {
    pub image_quality: ImageQuality,
    pub custom_image_quality: i32,
    pub custom_fps: i32,
}

/// A display of a peer.
#[derive(Debug, Clone, PartialEq, Eq)]
pub struct DisplayInfo {
    pub x: i32,
    pub y: i32,
    pub width: i32,
    pub height: i32,
    pub name: String,
    pub cursor_embedded: bool,
}

/// What a peer says about itself.
#[derive(Debug, Clone, PartialEq, Eq)]
pub struct PeerInfo {
    pub username: String,
    pub hostname: String,
    pub platform: String,
    pub version: String,
    pub displays: Vec<DisplayInfo>,
    pub current_display: i32,
}

/// A display with its name as a sequence.
pub struct DisplayInfoView {
    pub x: i32,
    pub y: i32,
    pub width: i32,
    pub height: i32,
    pub name: Seq<char>,
    pub cursor_embedded: bool,
}

/// A peer with its texts as sequences.
pub struct PeerInfoView {
    pub username: Seq<char>,
    pub hostname: Seq<char>,
    pub platform: Seq<char>,
    pub version: Seq<char>,
    pub displays: Seq<DisplayInfoView>,
    pub current_display: i32,
}

impl View for DisplayInfo {
    type V = DisplayInfoView;

    open spec fn view(&self) -> DisplayInfoView {
        DisplayInfoView {
            x: self.x,
            y: self.y,
            width: self.width,
            height: self.height,
            name: self.name@,
            cursor_embedded: self.cursor_embedded,
        }
    }
}

impl View for PeerInfo {
    type V = PeerInfoView;

    open spec fn view(&self) -> PeerInfoView {
        PeerInfoView {
            username: self.username@,
            hostname: self.hostname@,
            platform: self.platform@,
            version: self.version@,
            displays: Seq::new(self.displays@.len(), |i: int| self.displays@[i]@),
            current_display: self.current_display,
        }
    }
}

impl DisplayInfo {
    /// A copy.
    pub fn copy(&self) -> (r: DisplayInfo)
        ensures
            r@ == self@,
    {
        DisplayInfo {
            x: self.x,
            y: self.y,
            width: self.width,
            height: self.height,
            name: self.name.clone(),
            cursor_embedded: self.cursor_embedded,
        }
    }
}

impl PeerInfo {
    /// A copy.
    pub fn copy(&self) -> (r: PeerInfo)
        ensures
            r@ == self@,
    {
        let mut displays: Vec<DisplayInfo> = Vec::new();
        let mut i: usize = 0;
        while i < self.displays.len()
            invariant
                i <= self.displays@.len(),
                displays@.len() == i,
                forall|j: int| 0 <= j < i ==> (#[trigger] displays@[j])@ == self.displays@[j]@,
            decreases self.displays@.len() - i,
        {
            displays.push(self.displays[i].copy());
            i = i + 1;
        }
        let r = PeerInfo {
            username: self.username.clone(),
            hostname: self.hostname.clone(),
            platform: self.platform.clone(),
            version: self.version.clone(),
            displays,
            current_display: self.current_display,
        };
        assert(r@.displays =~= self@.displays);
        r
    }
}

/// The small messages.
#[derive(Debug, Clone, PartialEq, Eq)]
pub enum Misc {
    PermissionInfo { permission: Permission, enabled: bool },
    CloseReason,
    SwitchDisplay(SwitchDisplay),
    Options(OptionMessage),
    RefreshVideo(bool),
    RefreshVideoDisplay(i32),
    MessageQuery { switch_display: i32 },
    CaptureDisplays { add: Vec<i32>, sub: Vec<i32>, set: Vec<i32> },
    ChangeResolution,
    ChangeDisplayResolution { display: i32, width: i32, height: i32 },
    ChatMessage,
    Other,
}

/// A message of a peer, or to one.
#[derive(Debug, Clone, PartialEq, Eq)]
pub enum Message {
    VideoFrame(VideoFrame),
    TestDelay(TestDelay),
    Misc(Misc),
    MouseEvent(MouseEvent),
    KeyEvent(KeyEvent),
    PointerDeviceEvent,
    Clipboard(Clipboard),
    MultiClipboards(Vec<Clipboard>),
    /// Something this engine does not read.
    Other,
}

} // verus!
