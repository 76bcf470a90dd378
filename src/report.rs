use vstd::prelude::*;

verus! {

/// Severity of a line shown to the operator.
#[derive(Debug, Clone, Copy, PartialEq, Eq, Structural)]
pub enum Level {
    Info,
    Error,
}

/// How a piece of a line is highlighted when it is shown.
#[derive(Debug, Clone, Copy, PartialEq, Eq, Structural)]
pub enum Tone {
    Plain,
    Path,
    Yellow,
    Blue,
    Green,
    Red,
}

/// A piece of text with its highlight.
#[derive(Debug)]
pub struct Segment {
    pub text: String,
    pub tone: Tone,
}

/// A line shown to the operator, made of highlighted pieces.
#[derive(Debug)]
pub struct LogLine {
    pub level: Level,
    pub segments: Vec<Segment>,
}

pub open spec fn segments_view(s: Seq<Segment>) -> Seq<(Seq<char>, Tone)> {
    s.map_values(|g: Segment| (g.text@, g.tone))
}

impl View for LogLine {
    type V = (Level, Seq<(Seq<char>, Tone)>);

    open spec fn view(&self) -> (Level, Seq<(Seq<char>, Tone)>) {
        (self.level, segments_view(self.segments@))
    }
}

/// The text of a line without its highlights.
pub open spec fn plain_text(s: Seq<(Seq<char>, Tone)>) -> Seq<char>
    decreases s.len(),
{
    if s.len() == 0 {
        Seq::empty()
    } else {
        plain_text(s.drop_last()) + s.last().0
    }
}

pub open spec fn lines_view(v: Seq<LogLine>) -> Seq<(Level, Seq<(Seq<char>, Tone)>)> {
    v.map_values(|l: LogLine| l@)
}

impl LogLine {
    /// The line's text without its highlights.
    pub fn text(&self) -> (r: String)
        ensures
            r@ == plain_text(self@.1),
    {
        let mut r = String::new();
        let mut i: usize = 0;
        while i < self.segments.len()
            invariant
                i <= self.segments@.len(),
                r@ == plain_text(segments_view(self.segments@.take(i as int))),
            decreases self.segments@.len() - i,
        {
            proof {
                assert(segments_view(self.segments@.take(i + 1)).drop_last() =~= segments_view(
                    self.segments@.take(i as int),
                ));
            }
            r.append(self.segments[i].text.as_str());
            i = i + 1;
        }
        assert(self.segments@.take(self.segments@.len() as int) =~= self.segments@);
        r
    }
}

fn push_segment(segments: &mut Vec<Segment>, text: String, tone: Tone)
    ensures
        segments_view(final(segments)@) == segments_view(old(segments)@).push((text@, tone)),
{
    let ghost before = segments@;
    let ghost t = text@;
    segments.push(Segment { text, tone });
    assert(segments_view(segments@) =~= segments_view(before).push((t, tone)));
}

pub open spec fn clear_notice_spec() -> (Level, Seq<(Seq<char>, Tone)>) {
    (Level::Info, seq![("PGO profile directory will be cleared."@, Tone::Plain)])
}

/// Tells that the profiles of earlier runs are about to be removed.
pub fn clear_notice() -> (r: LogLine)
    ensures
        r@ == clear_notice_spec(),
{
    let mut segments: Vec<Segment> = Vec::new();
    push_segment(&mut segments, String::from_str("PGO profile directory will be cleared."), Tone::Plain);
    LogLine { level: Level::Info, segments }
}

pub open spec fn storage_notice_spec(dir: Seq<char>) -> (Level, Seq<(Seq<char>, Tone)>) {
    (
        Level::Info,
        seq![
            ("PGO profiles will be stored into "@, Tone::Plain),
            (dir, Tone::Path),
            ("."@, Tone::Plain),
        ],
    )
}

/// Tells where the instrumented binaries will write their profiles.
pub fn storage_notice(dir: &str) -> (r: LogLine)
    ensures
        r@ == storage_notice_spec(dir@),
{
    let mut segments: Vec<Segment> = Vec::new();
    push_segment(&mut segments, String::from_str("PGO profiles will be stored into "), Tone::Plain);
    push_segment(&mut segments, String::from_str(dir), Tone::Path);
    push_segment(&mut segments, String::from_str("."), Tone::Plain);
    LogLine { level: Level::Info, segments }
}

pub open spec fn artifact_notice_spec(kind: Seq<char>, target: Seq<char>) -> (
    Level,
    Seq<(Seq<char>, Tone)>,
) {
    (
        Level::Info,
        seq![
            ("PGO-instrumented "@, Tone::Plain),
            (kind, Tone::Yellow),
            (" "@, Tone::Plain),
            (target, Tone::Blue),
            (" built successfully."@, Tone::Plain),
        ],
    )
}

/// Tells that an instrumented artifact of the given kind and target was built.
pub fn artifact_notice(kind: &str, target: &str) -> (r: LogLine)
    ensures
        r@ == artifact_notice_spec(kind@, target@),
{
    let mut segments: Vec<Segment> = Vec::new();
    push_segment(&mut segments, String::from_str("PGO-instrumented "), Tone::Plain);
    push_segment(&mut segments, String::from_str(kind), Tone::Yellow);
    push_segment(&mut segments, String::from_str(" "), Tone::Plain);
    push_segment(&mut segments, String::from_str(target), Tone::Blue);
    push_segment(&mut segments, String::from_str(" built successfully."), Tone::Plain);
    LogLine { level: Level::Info, segments }
}

/// The environment setting that gives each process of `target` a profile
/// file of its own in `dir`.
pub open spec fn profile_file_setting(dir: Seq<char>, target: Seq<char>) -> Seq<char> {
    "LLVM_PROFILE_FILE="@ + dir + "/"@ + target + "_%m_%p.profraw"@
}

pub open spec fn guidance_middle() -> Seq<char> {
    " on your workload.\nIf your program creates multiple processes or you will execute it multiple times in parallel, consider running it with the following environment variable to have more precise profiles:\n"@
}

pub open spec fn guidance_spec(executable: Seq<char>, dir: Seq<char>, target: Seq<char>) -> (
    Level,
    Seq<(Seq<char>, Tone)>,
) {
    (
        Level::Info,
        seq![
            ("Now run "@, Tone::Plain),
            (executable, Tone::Path),
            (guidance_middle(), Tone::Plain),
            (profile_file_setting(dir, target), Tone::Blue),
        ],
    )
}

/// Tells the operator to run the instrumented executable on a workload, and
/// how to keep the profiles of several processes apart.
pub fn guidance(executable: &str, dir: &str, target: &str) -> (r: LogLine)
    ensures
        r@ == guidance_spec(executable@, dir@, target@),
{
    let mut segments: Vec<Segment> = Vec::new();
    push_segment(&mut segments, String::from_str("Now run "), Tone::Plain);
    push_segment(&mut segments, String::from_str(executable), Tone::Path);
    push_segment(
        &mut segments,
        String::from_str(
            " on your workload.\nIf your program creates multiple processes or you will execute it multiple times in parallel, consider running it with the following environment variable to have more precise profiles:\n",
        ),
        Tone::Plain,
    );
    let mut setting = String::from_str("LLVM_PROFILE_FILE=");
    setting.append(dir);
    setting.append("/");
    setting.append(target);
    setting.append("_%m_%p.profraw");
    push_segment(&mut segments, setting, Tone::Blue);
    LogLine { level: Level::Info, segments }
}

pub open spec fn finished_notice_spec(success: bool) -> (Level, Seq<(Seq<char>, Tone)>) {
    if success {
        (
            Level::Info,
            seq![
                ("PGO instrumentation build finished "@, Tone::Plain),
                ("successfully"@, Tone::Green),
                ("."@, Tone::Plain),
            ],
        )
    } else {
        (
            Level::Error,
            seq![
                ("PGO instrumentation build has "@, Tone::Plain),
                ("failed"@, Tone::Red),
                ("."@, Tone::Plain),
            ],
        )
    }
}

/// Tells how cargo reported the end of the build.
pub fn finished_notice(success: bool) -> (r: LogLine)
    ensures
        r@ == finished_notice_spec(success),
{
    let mut segments: Vec<Segment> = Vec::new();
    if success {
        push_segment(&mut segments, String::from_str("PGO instrumentation build finished "), Tone::Plain);
        push_segment(&mut segments, String::from_str("successfully"), Tone::Green);
        push_segment(&mut segments, String::from_str("."), Tone::Plain);
        LogLine { level: Level::Info, segments }
    } else {
        push_segment(&mut segments, String::from_str("PGO instrumentation build has "), Tone::Plain);
        push_segment(&mut segments, String::from_str("failed"), Tone::Red);
        push_segment(&mut segments, String::from_str("."), Tone::Plain);
        LogLine { level: Level::Error, segments }
    }
}

} // verus!
