//! Assembly of the stage chain: which stages are made and in what order,
//! which links are made at once, and which stream of the demultiplexer is
//! linked once its type is known.
use vstd::prelude::*;

verus! {

/// The stages of the pipeline.
#[derive(Clone, Copy, Debug, PartialEq, Eq, Structural)]
pub enum StageKind {
    SourceReader,
    Demuxer,
    Parser,
    Classifier,
    Decoder,
    Converter,
    Sink,
}

/// How many stages the pipeline has.
pub const STAGE_COUNT: usize = 7;

/// The stages in the order in which they are made.
pub open spec fn stage_order() -> Seq<StageKind> {
    seq![
        StageKind::SourceReader,
        StageKind::Demuxer,
        StageKind::Parser,
        StageKind::Classifier,
        StageKind::Decoder,
        StageKind::Converter,
        StageKind::Sink,
    ]
}

/// The links made before the pipeline starts. The demultiplexer's output
/// only exists once it has read the source, so it is not among them.
pub open spec fn static_link_set() -> Seq<(StageKind, StageKind)> {
    seq![
        (StageKind::SourceReader, StageKind::Demuxer),
        (StageKind::Parser, StageKind::Classifier),
        (StageKind::Classifier, StageKind::Decoder),
        (StageKind::Decoder, StageKind::Converter),
        (StageKind::Converter, StageKind::Sink),
    ]
}

impl StageKind {
    /// The name of the implementation the stage is made from.
    pub open spec fn factory_spec(&self) -> Seq<char> {
        match self {
            StageKind::SourceReader => "filesrc"@,
            StageKind::Demuxer => "qtdemux"@,
            StageKind::Parser => "h264parse"@,
            StageKind::Classifier => "frame_filter"@,
            StageKind::Decoder => "avdec_h264"@,
            StageKind::Converter => "videoconvert"@,
            StageKind::Sink => "autovideosink"@,
        }
    }

    /// The unique name of the stage inside the pipeline.
    pub open spec fn instance_spec(&self) -> Seq<char> {
        match self {
            StageKind::SourceReader => "source"@,
            StageKind::Demuxer => "demux"@,
            StageKind::Parser => "parser"@,
            StageKind::Classifier => "framefilter"@,
            StageKind::Decoder => "decoder"@,
            StageKind::Converter => "converter"@,
            StageKind::Sink => "auto_sink"@,
        }
    }

    pub fn factory(&self) -> (r: &'static str)
        ensures
            r@ == self.factory_spec(),
    {
        match self {
            StageKind::SourceReader => "filesrc",
            StageKind::Demuxer => "qtdemux",
            StageKind::Parser => "h264parse",
            StageKind::Classifier => "frame_filter",
            StageKind::Decoder => "avdec_h264",
            StageKind::Converter => "videoconvert",
            StageKind::Sink => "autovideosink",
        }
    }

    pub fn instance_name(&self) -> (r: &'static str)
        ensures
            r@ == self.instance_spec(),
    {
        match self {
            StageKind::SourceReader => "source",
            StageKind::Demuxer => "demux",
            StageKind::Parser => "parser",
            StageKind::Classifier => "framefilter",
            StageKind::Decoder => "decoder",
            StageKind::Converter => "converter",
            StageKind::Sink => "auto_sink",
        }
    }
}

/// The name of the pipeline that holds the stages.
pub fn pipeline_name() -> (r: &'static str)
    ensures
        r@ == "h264_filter_pipeline"@,
{
    "h264_filter_pipeline"
}

pub fn assembly_order() -> (r: Vec<StageKind>)
    ensures
        r@ == stage_order(),
{
    let r: Vec<StageKind> = vec![
        StageKind::SourceReader,
        StageKind::Demuxer,
        StageKind::Parser,
        StageKind::Classifier,
        StageKind::Decoder,
        StageKind::Converter,
        StageKind::Sink,
    ];
    assert(r@ =~= stage_order());
    r
}

pub fn static_links() -> (r: Vec<(StageKind, StageKind)>)
    ensures
        r@ == static_link_set(),
{
    let r: Vec<(StageKind, StageKind)> = vec![
        (StageKind::SourceReader, StageKind::Demuxer),
        (StageKind::Parser, StageKind::Classifier),
        (StageKind::Classifier, StageKind::Decoder),
        (StageKind::Decoder, StageKind::Converter),
        (StageKind::Converter, StageKind::Sink),
    ];
    assert(r@ =~= static_link_set());
    r
}

/// A stage whose implementation is not installed.
#[derive(Clone, Copy, Debug, PartialEq, Eq, Structural)]
pub struct MissingElement {
    pub stage: StageKind,
}

impl MissingElement {
    /// The implementation that could not be found.
    pub fn factory(&self) -> (r: &'static str)
        ensures
            r@ == self.stage.factory_spec(),
    {
        self.stage.factory()
    }
}

/// `i` is the first stage, in assembly order, that could not be made.
pub open spec fn first_missing_at(available: Seq<bool>, i: int) -> bool {
    0 <= i < available.len() && !available[i] && forall|j: int| 0 <= j < i ==> available[j]
}

/// Decides whether assembly can go on, given for each stage in assembly order
/// whether its implementation could be made. The first one that could not is
/// reported.
pub fn check_stages(available: &Vec<bool>) -> (r: Result<(), MissingElement>)
    requires
        available@.len() == STAGE_COUNT,
    ensures
        r is Ok <==> forall|i: int| 0 <= i < STAGE_COUNT ==> available@[i],
        r matches Err(e) ==> exists|i: int|
            first_missing_at(available@, i) && e.stage == stage_order()[i],
{
    let order = assembly_order();
    let mut i: usize = 0;
    while i < STAGE_COUNT
        invariant
            i <= STAGE_COUNT,
            available@.len() == STAGE_COUNT,
            order@ == stage_order(),
            forall|j: int| 0 <= j < i ==> available@[j],
        decreases STAGE_COUNT - i,
    {
        if !available[i] {
            assert(first_missing_at(available@, i as int));
            return Err(MissingElement { stage: order[i] });
        }
        i = i + 1;
    }
    Ok(())
}

/// `p` begins `s`.
pub open spec fn has_prefix(s: Seq<char>, p: Seq<char>) -> bool {
    p.len() <= s.len() && s.subrange(0, p.len() as int) == p
}

fn starts_with(s: &str, p: &str) -> (r: bool)
    ensures
        r == has_prefix(s@, p@),
{
    let n = s.unicode_len();
    let m = p.unicode_len();
    if m > n {
        return false;
    }
    let mut i: usize = 0;
    while i < m
        invariant
            i <= m <= n,
            n == s@.len(),
            m == p@.len(),
            s@.subrange(0, i as int) == p@.subrange(0, i as int),
        decreases m - i,
    {
        if s.get_char(i) != p.get_char(i) {
            assert(s@.subrange(0, m as int)[i as int] != p@[i as int]);
            return false;
        }
        assert(s@.subrange(0, i + 1) =~= s@.subrange(0, i as int).push(s@[i as int]));
        assert(p@.subrange(0, i + 1) =~= p@.subrange(0, i as int).push(p@[i as int]));
        i = i + 1;
    }
    assert(p@.subrange(0, m as int) =~= p@);
    true
}

/// What to do with an output pad that the demultiplexer has just created.
#[derive(Clone, Copy, Debug, PartialEq, Eq, Structural)]
pub enum PadAction {
    /// Link the pad to the parser's input.
    LinkToParser,
    /// Leave the pad unlinked: its stream is not the one this pipeline plays.
    Ignore,
}

/// Whether a pad whose negotiated media type is `media_type` (`None` when it
/// has none yet) carries H.264 video.
pub open spec fn is_h264_video(media_type: Option<Seq<char>>) -> bool {
    match media_type {
        Some(t) => has_prefix(t, "video/x-h264"@),
        None => false,
    }
}

pub open spec fn opt_view(t: Option<&str>) -> Option<Seq<char>> {
    match t {
        Some(s) => Some(s@),
        None => None,
    }
}

/// Only an H.264 video pad is linked; any other stream is left alone.
pub fn pad_added_action(media_type: Option<&str>) -> (r: PadAction)
    ensures
        r == (if is_h264_video(opt_view(media_type)) {
            PadAction::LinkToParser
        } else {
            PadAction::Ignore
        }),
{
    match media_type {
        Some(t) => {
            if starts_with(t, "video/x-h264") {
                PadAction::LinkToParser
            } else {
                PadAction::Ignore
            }
        },
        None => PadAction::Ignore,
    }
}

} // verus!
