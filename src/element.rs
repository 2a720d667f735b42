//! What the filter stage declares about itself, and how it relays control
//! traffic (events and queries) between its two pads.
use vstd::prelude::*;

verus! {

/// The side of the stage a pad sits on.
#[derive(Clone, Copy, Debug, PartialEq, Eq, Structural)]
pub enum PadDirection {
    Sink,
    Src,
}

/// The media type that both pads accept and emit.
pub open spec fn h264_caps() -> Seq<char> {
    "video/x-h264"@
}

/// A pad that the stage always has: its name, its side and its media type.
pub struct PadTemplateInfo {
    pub name: &'static str,
    pub direction: PadDirection,
    pub caps: &'static str,
}

/// Descriptive text shown by registry tools.
pub struct ElementMetadata {
    pub long_name: &'static str,
    pub classification: &'static str,
    pub description: &'static str,
    pub author: &'static str,
}

/// The name under which the stage is registered and made by name.
pub fn element_name() -> (r: &'static str)
    ensures
        r@ == "frame_filter"@,
{
    "frame_filter"
}

pub fn element_metadata() -> (r: ElementMetadata)
    ensures
        r.long_name@ == "H264 I-Frames filter"@,
        r.classification@ == "Filter/Video"@,
        r.description@ == "Drops all frames from H264 stream except I-Frames"@,
        r.author@ == "Bohdan Shubenok <bohdan.shubenok@sigma.software>"@,
{
    ElementMetadata {
        long_name: "H264 I-Frames filter",
        classification: "Filter/Video",
        description: "Drops all frames from H264 stream except I-Frames",
        author: "Bohdan Shubenok <bohdan.shubenok@sigma.software>",
    }
}

/// Exactly two always-present pads, a source and a sink, both carrying H.264.
pub fn pad_templates() -> (r: Vec<PadTemplateInfo>)
    ensures
        r@.len() == 2,
        r@[0].name@ == "src"@,
        r@[0].direction == PadDirection::Src,
        r@[1].name@ == "sink"@,
        r@[1].direction == PadDirection::Sink,
        forall|i: int| 0 <= i < 2 ==> (#[trigger] r@[i]).caps@ == h264_caps(),
{
    let mut r: Vec<PadTemplateInfo> = Vec::new();
    r.push(PadTemplateInfo { name: "src", direction: PadDirection::Src, caps: "video/x-h264" });
    r.push(PadTemplateInfo { name: "sink", direction: PadDirection::Sink, caps: "video/x-h264" });
    r
}

/// An event or query that arrives on one pad leaves through the other one.
pub fn relay_target(arrived_on: PadDirection) -> (r: PadDirection)
    ensures
        r != arrived_on,
{
    match arrived_on {
        PadDirection::Sink => PadDirection::Src,
        PadDirection::Src => PadDirection::Sink,
    }
}

/// What the stage answers for a relayed event or query: the neighbour's own
/// answer, or failure where no neighbour is linked (`None`).
pub fn relay_reply(neighbour: Option<bool>) -> (r: bool)
    ensures
        r == (neighbour == Some(true)),
{
    match neighbour {
        Some(answer) => answer,
        None => false,
    }
}

} // verus!
