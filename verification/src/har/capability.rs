//! What the hardware says that it can do, as JSON texts.
//!
//! What is reported was advertised by the platform; nothing of it was measured.
use vstd::prelude::*;
use crate::har;
use crate::har::BridgeError;
use crate::json;
use crate::text;

verus! {

/// What a codec does.
#[derive(Debug, Clone, Copy, PartialEq, Eq, Structural)]
pub enum CodecDirection {
    Encode,
    Decode,
}

/// What is said about one size of a picture.
#[derive(Debug)]
pub struct SizeEvidence {
    pub width: i32,
    pub height: i32,
    pub fps: i32,
    pub size_supported: bool,
    pub size_and_rate_supported: bool,
    /// The lowest and the highest rate, or why they are not known.
    pub frame_rate_range: Result<(i32, i32), String>,
}

/// What is said about a codec. Where the platform gave no answer, the error stands in
/// its place.
#[derive(Debug)]
pub struct AdvertisedCodec {
    pub direction: CodecDirection,
    pub mime: String,
    pub codec_name: String,
    pub hardware: bool,
    pub profiles: Result<Vec<i32>, String>,
    pub main10_advertised: Result<bool, String>,
    pub main10_levels: Result<Vec<i32>, String>,
    pub native_buffer_formats: Result<Vec<i32>, String>,
    pub pixel_formats: Result<Vec<i32>, String>,
    pub width_alignment: Result<i32, String>,
    pub height_alignment: Result<i32, String>,
    pub sizes: Vec<SizeEvidence>,
}

/// What is said about the rate of screen capture.
#[derive(Debug)]
pub enum CaptureRate {
    /// The documents of the platform name a limit.
    DocumentedMaximum { fps: u32, source: String },
    /// The platform has none.
    NotApplicable,
}

/// What is said about everything.
#[derive(Debug)]
pub struct CapabilityReport {
    pub encoder: Result<AdvertisedCodec, String>,
    pub decoder: Result<AdvertisedCodec, String>,
    pub screen_capture_rate: CaptureRate,
}

/// A value that is known.
pub open spec fn known(value: Seq<char>) -> Seq<char> {
    json::ObjectView::empty().with("ok"@, text::truth(true)).with("value"@, value).text()
}

/// A value that is not known, and why.
pub open spec fn unknown(error: Seq<char>) -> Seq<char> {
    json::ObjectView::empty().with("ok"@, text::truth(false)).with(
        "error"@,
        json::json_string(error),
    ).text()
}

/// The text of a value that is known.
pub fn known_text(value: &str) -> (r: String)
    ensures
        r@ == known(value@),
{
    let mut object = json::Object::new();
    object.put_bool("ok", true);
    object.put("value", value);
    object.text()
}

/// The text of a value that is not known.
pub fn unknown_text(error: &str) -> (r: String)
    ensures
        r@ == unknown(error@),
{
    let mut object = json::Object::new();
    object.put_bool("ok", false);
    object.put_text("error", error);
    object.text()
}

/// Numbers as a JSON array.
pub open spec fn number_list(numbers: Seq<i32>) -> Seq<char> {
    json::array_of(Seq::new(numbers.len(), |i: int| text::signed_decimal(numbers[i] as int)))
}

fn number_list_text(numbers: &Vec<i32>) -> (r: String)
    ensures
        r@ == number_list(numbers@),
{
    let mut items: Vec<String> = Vec::new();
    let mut i: usize = 0;
    while i < numbers.len()
        invariant
            i <= numbers@.len(),
            items@.len() == i,
            forall|j: int|
                0 <= j < i ==> (#[trigger] items@[j])@ == text::signed_decimal(numbers@[j] as int),
        decreases numbers@.len() - i,
    {
        items.push(text::signed_text(numbers[i] as i64));
        i = i + 1;
    }
    assert(text::texts(items@) =~= Seq::new(
        numbers@.len(),
        |i: int| text::signed_decimal(numbers@[i] as int),
    ));
    json::array_text(&items)
}

/// Numbers, or why they are not known.
pub open spec fn list_evidence(r: Result<Vec<i32>, String>) -> Seq<char> {
    match r {
        Ok(numbers) => known(number_list(numbers@)),
        Err(error) => unknown(error@),
    }
}

fn list_evidence_text(list: &Result<Vec<i32>, String>) -> (r: String)
    ensures
        r@ == list_evidence(*list),
{
    match list {
        Ok(numbers) => known_text(number_list_text(numbers).as_str()),
        Err(error) => unknown_text(error.as_str()),
    }
}

/// A number, or why it is not known.
pub open spec fn number_evidence(r: Result<i32, String>) -> Seq<char> {
    match r {
        Ok(n) => known(text::signed_decimal(n as int)),
        Err(error) => unknown(error@),
    }
}

fn number_evidence_text(n: &Result<i32, String>) -> (r: String)
    ensures
        r@ == number_evidence(*n),
{
    match n {
        Ok(n) => known_text(text::signed_text(*n as i64).as_str()),
        Err(error) => unknown_text(error.as_str()),
    }
}

/// A yes or no, or why it is not known.
pub open spec fn truth_evidence(r: Result<bool, String>) -> Seq<char> {
    match r {
        Ok(b) => known(text::truth(b)),
        Err(error) => unknown(error@),
    }
}

fn truth_evidence_text(b: &Result<bool, String>) -> (r: String)
    ensures
        r@ == truth_evidence(*b),
{
    match b {
        Ok(b) => known_text(text::truth_text(*b)),
        Err(error) => unknown_text(error.as_str()),
    }
}

/// A range of rates, or why it is not known.
pub open spec fn range_evidence(r: Result<(i32, i32), String>) -> Seq<char> {
    match r {
        Ok((min, max)) => known(
            json::ObjectView::empty().with("min"@, text::signed_decimal(min as int)).with(
                "max"@,
                text::signed_decimal(max as int),
            ).text(),
        ),
        Err(error) => unknown(error@),
    }
}

/// What is said about a size, as a JSON object.
pub open spec fn size_json(size: SizeEvidence) -> Seq<char> {
    json::ObjectView::empty().with("width"@, text::signed_decimal(size.width as int)).with(
        "height"@,
        text::signed_decimal(size.height as int),
    ).with("fps"@, text::signed_decimal(size.fps as int)).with(
        "size_supported"@,
        text::truth(size.size_supported),
    ).with("size_and_rate_supported"@, text::truth(size.size_and_rate_supported)).with(
        "frame_rate_range"@,
        range_evidence(size.frame_rate_range),
    ).text()
}

fn size_text(size: &SizeEvidence) -> (r: String)
    ensures
        r@ == size_json(*size),
{
    let range = match &size.frame_rate_range {
        Ok((min, max)) => {
            let mut bounds = json::Object::new();
            bounds.put_number("min", *min);
            bounds.put_number("max", *max);
            known_text(bounds.text().as_str())
        },
        Err(error) => unknown_text(error.as_str()),
    };
    let mut object = json::Object::new();
    object.put_number("width", size.width);
    object.put_number("height", size.height);
    object.put_number("fps", size.fps);
    object.put_bool("size_supported", size.size_supported);
    object.put_bool("size_and_rate_supported", size.size_and_rate_supported);
    object.put("frame_rate_range", range.as_str());
    object.text()
}

/// What is said about sizes, as a JSON array.
pub open spec fn sizes_json(sizes: Seq<SizeEvidence>) -> Seq<char> {
    json::array_of(Seq::new(sizes.len(), |i: int| size_json(sizes[i])))
}

fn sizes_text(sizes: &Vec<SizeEvidence>) -> (r: String)
    ensures
        r@ == sizes_json(sizes@),
{
    let mut items: Vec<String> = Vec::new();
    let mut i: usize = 0;
    while i < sizes.len()
        invariant
            i <= sizes@.len(),
            items@.len() == i,
            forall|j: int| 0 <= j < i ==> (#[trigger] items@[j])@ == size_json(sizes@[j]),
        decreases sizes@.len() - i,
    {
        items.push(size_text(&sizes[i]));
        i = i + 1;
    }
    assert(text::texts(items@) =~= Seq::new(sizes@.len(), |i: int| size_json(sizes@[i])));
    json::array_text(&items)
}

/// What is said about a codec, as a JSON object.
pub open spec fn codec_json(codec: AdvertisedCodec) -> Seq<char> {
    json::ObjectView::empty().with(
        "direction"@,
        json::json_string(
            match codec.direction {
                CodecDirection::Encode => "encode"@,
                CodecDirection::Decode => "decode"@,
            },
        ),
    ).with("mime"@, json::json_string(codec.mime@)).with(
        "codec_name"@,
        json::json_string(codec.codec_name@),
    ).with("hardware"@, text::truth(codec.hardware)).with(
        "profiles"@,
        list_evidence(codec.profiles),
    ).with("main10_advertised"@, truth_evidence(codec.main10_advertised)).with(
        "main10_levels"@,
        list_evidence(codec.main10_levels),
    ).with("native_buffer_formats"@, list_evidence(codec.native_buffer_formats)).with(
        "pixel_formats"@,
        list_evidence(codec.pixel_formats),
    ).with("width_alignment"@, number_evidence(codec.width_alignment)).with(
        "height_alignment"@,
        number_evidence(codec.height_alignment),
    ).with("sizes"@, sizes_json(codec.sizes@)).text()
}

/// What is said about a codec, as a JSON text.
pub fn codec_metadata(codec: &AdvertisedCodec) -> (r: String)
    ensures
        r@ == codec_json(*codec),
{
    let mut object = json::Object::new();
    let direction = match codec.direction {
        CodecDirection::Encode => "encode",
        CodecDirection::Decode => "decode",
    };
    object.put_text("direction", direction);
    object.put_text("mime", codec.mime.as_str());
    object.put_text("codec_name", codec.codec_name.as_str());
    object.put_bool("hardware", codec.hardware);
    object.put("profiles", list_evidence_text(&codec.profiles).as_str());
    object.put("main10_advertised", truth_evidence_text(&codec.main10_advertised).as_str());
    object.put("main10_levels", list_evidence_text(&codec.main10_levels).as_str());
    object.put("native_buffer_formats", list_evidence_text(&codec.native_buffer_formats).as_str());
    object.put("pixel_formats", list_evidence_text(&codec.pixel_formats).as_str());
    object.put("width_alignment", number_evidence_text(&codec.width_alignment).as_str());
    object.put("height_alignment", number_evidence_text(&codec.height_alignment).as_str());
    object.put("sizes", sizes_text(&codec.sizes).as_str());
    object.text()
}

/// What is said about a codec, or why nothing is.
pub open spec fn codec_evidence(r: Result<AdvertisedCodec, String>) -> Seq<char> {
    match r {
        Ok(codec) => known(codec_json(codec)),
        Err(error) => unknown(error@),
    }
}

fn codec_evidence_text(codec: &Result<AdvertisedCodec, String>) -> (r: String)
    ensures
        r@ == codec_evidence(*codec),
{
    match codec {
        Ok(codec) => known_text(codec_metadata(codec).as_str()),
        Err(error) => unknown_text(error.as_str()),
    }
}

/// What is said about the rate of screen capture, as a JSON object.
pub open spec fn capture_json(rate: CaptureRate) -> Seq<char> {
    match rate {
        CaptureRate::DocumentedMaximum { fps, source } => json::ObjectView::empty().with(
            "kind"@,
            json::json_string("documented-maximum-only"@),
        ).with("fps"@, text::decimal(fps as nat)).with("source"@, json::json_string(source@)).text(),
        CaptureRate::NotApplicable => json::ObjectView::empty().with(
            "kind"@,
            json::json_string("unsupported-platform"@),
        ).text(),
    }
}

fn capture_text(rate: &CaptureRate) -> (r: String)
    ensures
        r@ == capture_json(*rate),
{
    let mut object = json::Object::new();
    match rate {
        CaptureRate::DocumentedMaximum { fps, source } => {
            object.put_text("kind", "documented-maximum-only");
            object.put_count("fps", *fps as u64);
            object.put_text("source", source.as_str());
        },
        CaptureRate::NotApplicable => {
            object.put_text("kind", "unsupported-platform");
        },
    }
    object.text()
}

/// What is said about everything, as a JSON object.
pub open spec fn report_json(report: CapabilityReport, reference: Seq<char>) -> Seq<char> {
    json::ObjectView::empty().with("evidence"@, json::json_string("advertised-only"@)).with(
        "codec_family"@,
        json::json_string("HEVC"@),
    ).with("encoder"@, codec_evidence(report.encoder)).with(
        "decoder"@,
        codec_evidence(report.decoder),
    ).with("screen_capture_rate"@, capture_json(report.screen_capture_rate)).with(
        "codec_throughput"@,
        json::json_string("not-measured"@),
    ).with("hdr_display"@, json::json_string("not-measured"@)).with(
        "screen_capture_hdr"@,
        json::json_string("not-measured"@),
    ).with("reference"@, json::json_string(reference)).text()
}

/// What is said about everything, as a JSON text. `reference` is where that is
/// documented.
pub fn engine_capabilities(report: &CapabilityReport, reference: &str) -> (r: String)
    ensures
        r@ == report_json(*report, reference@),
{
    let mut object = json::Object::new();
    object.put_text("evidence", "advertised-only");
    object.put_text("codec_family", "HEVC");
    object.put("encoder", codec_evidence_text(&report.encoder).as_str());
    object.put("decoder", codec_evidence_text(&report.decoder).as_str());
    object.put("screen_capture_rate", capture_text(&report.screen_capture_rate).as_str());
    object.put_text("codec_throughput", "not-measured");
    object.put_text("hdr_display", "not-measured");
    object.put_text("screen_capture_hdr", "not-measured");
    object.put_text("reference", reference);
    object.text()
}

/// Begins to ask the platform, where nobody else does. The flag is taken back when the
/// platform has answered, even where nobody waits for the answer any more.
pub fn begin_query(running: &mut bool) -> (r: Result<(), BridgeError>)
    ensures
        *final(running),
        match r {
            Ok(_) => !*old(running),
            Err(error) => *old(running) && error@ == har::failure(
                "Capability query already pending"@,
            ),
        },
{
    if *running {
        return Err(har::failed("Capability query already pending"));
    }
    *running = true;
    Ok(())
}

} // verus!
