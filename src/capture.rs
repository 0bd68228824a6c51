//! The pure parts of a capture pass: where each display's screenshot goes,
//! where each overlay stands, how a selection becomes a crop box, and what
//! the upload pipeline is told afterwards.
use vstd::prelude::*;

use crate::text::{decimal, parse_decimal, push_decimal, str_eq};

verus! {

/// A request sent to the capture loop and to every open overlay.
#[derive(Debug, Clone, Copy, PartialEq, Eq, Structural)]
pub enum CaptureThreadRequest {
    Start,
    Quit,
}

impl CaptureThreadRequest {
    /// Whether an overlay that reads this request closes itself.
    pub fn closes_overlay(&self) -> (b: bool)
        ensures
            b == (*self == CaptureThreadRequest::Quit),
    {
        match self {
            CaptureThreadRequest::Quit => true,
            CaptureThreadRequest::Start => false,
        }
    }
}

/// Why a capture command or a capture pass failed.
#[derive(Debug, Clone, Copy, PartialEq, Eq, Structural)]
pub enum CaptureError {
    /// A command came before the capture loop was started.
    NotInitialized,
    /// The capture loop is gone; capture is unavailable until restart.
    ChannelClosed,
    /// A display gave no non-empty frame within its attempts.
    NoFrameCaptured,
    /// The window system reports fewer displays than were enumerated.
    EnumerationMismatch,
}

/// The file, in the temporary directory, that holds the crop result.
pub const CROPPED_FILE_NAME: &'static str = "cropped.png";

/// The file name of the screenshot of display `ordinal`.
pub open spec fn capture_file_name_of(ordinal: nat) -> Seq<char> {
    "screenshot_monitor_"@ + decimal(ordinal) + ".png"@
}

/// The label of the overlay window over display `ordinal`.
pub open spec fn overlay_label_of(ordinal: nat) -> Seq<char> {
    "capture_"@ + decimal(ordinal)
}

/// The file name, in the temporary directory, of the screenshot of display
/// `ordinal`. The capture loop writes it and the crop step reads it, each
/// computing it afresh.
pub fn get_capture_url(ordinal: usize) -> (r: String)
    ensures
        r@ == capture_file_name_of(ordinal as nat),
{
    let mut s = String::from_str("screenshot_monitor_");
    push_decimal(&mut s, ordinal);
    s.append(".png");
    s
}

/// The label of the overlay window over display `ordinal`.
pub fn overlay_label(ordinal: usize) -> (r: String)
    ensures
        r@ == overlay_label_of(ordinal as nat),
{
    let mut s = String::from_str("capture_");
    push_decimal(&mut s, ordinal);
    s
}

/// The display whose overlay carries `label`, if it is the label of one.
pub fn ordinal_of_label(label: &str) -> (r: Option<usize>)
    ensures
        r matches Some(n) ==> label@ == overlay_label_of(n as nat),
        r is None ==> forall|n: usize| label@ != overlay_label_of(n as nat),
{
    proof {
        reveal_strlit("capture_");
    }
    let prefix = "capture_";
    let len = label.unicode_len();
    if len < 8 || !str_eq(label.substring_char(0, 8), prefix) {
        proof {
            assert forall|n: usize| label@ != overlay_label_of(n as nat) by {
                if label@ == overlay_label_of(n as nat) {
                    assert(label@.subrange(0, 8) =~= prefix@);
                }
            }
        }
        return None;
    }
    let rest = label.substring_char(8, len);
    assert(label@ =~= prefix@ + rest@);
    match parse_decimal(rest) {
        Some(n) => Some(n),
        None => {
            proof {
                assert forall|n: usize| label@ != overlay_label_of(n as nat) by {
                    if label@ == overlay_label_of(n as nat) {
                        assert(rest@ =~= label@.subrange(8, label@.len() as int));
                        assert(rest@ =~= decimal(n as nat));
                    }
                }
            }
            None
        },
    }
}

/// The screenshot path depends on the ordinal alone: two results of
/// `get_capture_url` for one ordinal, in one pass or in different passes,
/// are the same text.
pub proof fn law_capture_url_is_pure(n: usize, first: String, second: String)
    requires
        first@ == capture_file_name_of(n as nat),
        second@ == capture_file_name_of(n as nat),
    ensures
        first@ == second@,
{
}

/// Different displays never share a screenshot file or an overlay label.
pub proof fn law_capture_names_are_distinct(a: nat, b: nat)
    requires
        a != b,
    ensures
        capture_file_name_of(a) != capture_file_name_of(b),
        overlay_label_of(a) != overlay_label_of(b),
{
    crate::text::lemma_decimal_value(a);
    crate::text::lemma_decimal_value(b);
    let pa = "screenshot_monitor_"@;
    let sa = ".png"@;
    if capture_file_name_of(a) == capture_file_name_of(b) {
        let la = decimal(a).len();
        let lb = decimal(b).len();
        assert(capture_file_name_of(a).len() == pa.len() + la + sa.len());
        assert(capture_file_name_of(b).len() == pa.len() + lb + sa.len());
        assert(decimal(a) =~= capture_file_name_of(a).subrange(pa.len() as int, (pa.len() + la) as int));
        assert(decimal(b) =~= capture_file_name_of(b).subrange(pa.len() as int, (pa.len() + lb) as int));
    }
    if overlay_label_of(a) == overlay_label_of(b) {
        assert(decimal(a) =~= overlay_label_of(a).subrange(
            "capture_"@.len() as int,
            overlay_label_of(a).len() as int,
        ));
        assert(decimal(b) =~= overlay_label_of(b).subrange(
            "capture_"@.len() as int,
            overlay_label_of(b).len() as int,
        ));
    }
}

/// Where a display stands on the virtual screen, in physical pixels.
#[derive(Debug, Clone, Copy, PartialEq, Eq, Structural)]
pub struct DisplayDescriptor {
    pub x: i32,
    pub y: i32,
    pub width: u32,
    pub height: u32,
}

/// An overlay window to open: its label and the rectangle it covers.
#[derive(Debug, Clone)]
pub struct OverlayPlan {
    pub label: String,
    pub x: i32,
    pub y: i32,
    pub width: u32,
    pub height: u32,
}

impl OverlayPlan {
    /// The overlay covers display `ordinal`, which stands at `d`.
    pub open spec fn covers(self, ordinal: nat, d: DisplayDescriptor) -> bool {
        &&& self.label@ == overlay_label_of(ordinal)
        &&& self.x == d.x
        &&& self.y == d.y
        &&& self.width == d.width
        &&& self.height == d.height
    }
}

/// One overlay per captured display, in ordinal order, each over the display
/// that the window system reports at the same position of its list. Fails
/// with `EnumerationMismatch` when it reports fewer displays than were
/// captured.
pub fn plan_overlays(captured: usize, displays: &Vec<DisplayDescriptor>) -> (r: Result<
    Vec<OverlayPlan>,
    CaptureError,
>)
    ensures
        r is Err <==> displays@.len() < captured,
        r matches Err(e) ==> e == CaptureError::EnumerationMismatch,
        r matches Ok(plans) ==> plans@.len() == captured && forall|i: int|
            0 <= i < captured ==> #[trigger] plans@[i].covers(i as nat, displays@[i]),
{
    if displays.len() < captured {
        return Err(CaptureError::EnumerationMismatch);
    }
    let mut plans: Vec<OverlayPlan> = Vec::new();
    let mut i: usize = 0;
    while i < captured
        invariant
            captured <= displays@.len(),
            i <= captured,
            plans@.len() == i,
            forall|k: int| 0 <= k < i ==> #[trigger] plans@[k].covers(k as nat, displays@[k]),
        decreases captured - i,
    {
        let d = displays[i];
        plans.push(
            OverlayPlan { label: overlay_label(i), x: d.x, y: d.y, width: d.width, height: d.height },
        );
        i = i + 1;
    }
    Ok(plans)
}

/// A selection in whole pixels of the screenshot; corners in any order and
/// possibly beyond the image.
#[derive(Debug, Clone, Copy, PartialEq, Eq, Structural)]
pub struct PixelRect {
    pub x1: u32,
    pub y1: u32,
    pub x2: u32,
    pub y2: u32,
}

/// The part of an image to keep.
#[derive(Debug, Clone, Copy, PartialEq, Eq, Structural)]
pub struct CropBox {
    pub x: u32,
    pub y: u32,
    pub width: u32,
    pub height: u32,
}

pub open spec fn min_u32(a: u32, b: u32) -> u32 {
    if a <= b {
        a
    } else {
        b
    }
}

pub open spec fn max_u32(a: u32, b: u32) -> u32 {
    if a >= b {
        a
    } else {
        b
    }
}

/// The crop box of `rect` over an image of `img_width` by `img_height`: the
/// corners are put in order, then each side is cut at the image's edge.
pub open spec fn crop_box_of(rect: PixelRect, img_width: u32, img_height: u32) -> CropBox {
    let left = min_u32(min_u32(rect.x1, rect.x2), img_width);
    let top = min_u32(min_u32(rect.y1, rect.y2), img_height);
    let right = min_u32(max_u32(rect.x1, rect.x2), img_width);
    let bottom = min_u32(max_u32(rect.y1, rect.y2), img_height);
    CropBox { x: left, y: top, width: (right - left) as u32, height: (bottom - top) as u32 }
}

fn min_of(a: u32, b: u32) -> (r: u32)
    ensures
        r == min_u32(a, b),
{
    if a <= b {
        a
    } else {
        b
    }
}

fn max_of(a: u32, b: u32) -> (r: u32)
    ensures
        r == max_u32(a, b),
{
    if a >= b {
        a
    } else {
        b
    }
}

/// The crop box of a selection over an image of the given size.
pub fn crop_box(rect: PixelRect, img_width: u32, img_height: u32) -> (b: CropBox)
    ensures
        b == crop_box_of(rect, img_width, img_height),
{
    let left = min_of(min_of(rect.x1, rect.x2), img_width);
    let top = min_of(min_of(rect.y1, rect.y2), img_height);
    let right = min_of(max_of(rect.x1, rect.x2), img_width);
    let bottom = min_of(max_of(rect.y1, rect.y2), img_height);
    CropBox { x: left, y: top, width: right - left, height: bottom - top }
}

/// Whatever the selection, the crop box lies inside the image; where the
/// selection lies inside the image, the box spans it exactly.
pub proof fn law_crop_box_within_image(rect: PixelRect, img_width: u32, img_height: u32)
    ensures
        ({
            let b = crop_box_of(rect, img_width, img_height);
            &&& b.x as int + b.width as int <= img_width as int
            &&& b.y as int + b.height as int <= img_height as int
            &&& (rect.x1 <= img_width && rect.x2 <= img_width) ==> b.x == min_u32(rect.x1, rect.x2)
                && b.width == max_u32(rect.x1, rect.x2) - min_u32(rect.x1, rect.x2)
            &&& (rect.y1 <= img_height && rect.y2 <= img_height) ==> b.y == min_u32(
                rect.y1,
                rect.y2,
            ) && b.height == max_u32(rect.y1, rect.y2) - min_u32(rect.y1, rect.y2)
        }),
{
}

/// What the user chose to do with the cropped screenshot.
#[derive(Debug, Clone, Copy, PartialEq, Eq, Structural)]
pub enum FinishCaptureNextAction {
    Ask,
    UploadImageToVideoServer,
    UploadImageToImageServer,
    UploadImageToVRChatPrint,
}

/// The upload that the pipeline starts without asking.
#[derive(Debug, Clone, Copy, PartialEq, Eq, Structural)]
pub enum SendRequestEventMode {
    UploadImageToVideoServer,
    UploadImageToImageServer,
    UploadImageToVRChatPrint,
}

/// The notice that a file is ready for upload.
#[derive(Debug, Clone)]
pub struct SendRequestEvent {
    pub file: String,
    pub mode: Option<SendRequestEventMode>,
}

impl FinishCaptureNextAction {
    pub open spec fn spec_upload_mode(self) -> Option<SendRequestEventMode> {
        match self {
            FinishCaptureNextAction::Ask => None,
            FinishCaptureNextAction::UploadImageToVideoServer => Some(
                SendRequestEventMode::UploadImageToVideoServer,
            ),
            FinishCaptureNextAction::UploadImageToImageServer => Some(
                SendRequestEventMode::UploadImageToImageServer,
            ),
            FinishCaptureNextAction::UploadImageToVRChatPrint => Some(
                SendRequestEventMode::UploadImageToVRChatPrint,
            ),
        }
    }

    /// The upload to start, or `None` when the user is to be asked.
    pub fn upload_mode(&self) -> (r: Option<SendRequestEventMode>)
        ensures
            r == self.spec_upload_mode(),
    {
        match self {
            FinishCaptureNextAction::Ask => None,
            FinishCaptureNextAction::UploadImageToVideoServer => Some(
                SendRequestEventMode::UploadImageToVideoServer,
            ),
            FinishCaptureNextAction::UploadImageToImageServer => Some(
                SendRequestEventMode::UploadImageToImageServer,
            ),
            FinishCaptureNextAction::UploadImageToVRChatPrint => Some(
                SendRequestEventMode::UploadImageToVRChatPrint,
            ),
        }
    }
}

/// The notice sent once the crop of `file` has been saved.
pub fn send_request_event(file: String, next_action: FinishCaptureNextAction) -> (e:
    SendRequestEvent)
    ensures
        e.file@ == file@,
        e.mode == next_action.spec_upload_mode(),
{
    SendRequestEvent { file, mode: next_action.upload_mode() }
}

} // verus!
