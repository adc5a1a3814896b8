use crate::color::{palette_index, Color, ColorMap};
use crate::severity::{severity_label, Severity};
use crate::styling::{
    contains, decimal, decimal_string, lemma_contains_framed, lemma_contains_trans,
    lemma_styled_contains, paint, styled,
};
use vstd::prelude::*;

verus! {

/// Version of this library, as written into machine information.
pub const VERSION: &'static str = "0.1.1";

/// What a user is told to do after a crash, and where to report it.
#[derive(Debug, Clone)]
pub struct HowToBugReport {
    /// The message displayed on a crash.
    pub message: String,
    /// Where users are sent to report the crash.
    pub url: String,
}

impl HowToBugReport {
    /// A bug report pointer from its message and its url.
    pub fn new(message: String, url: String) -> (r: Self)
        ensures
            r.message@ == message@,
            r.url@ == url@,
    {
        HowToBugReport { message, url }
    }
}

/// The version of the compiler's code generator.
#[derive(PartialEq, Eq, Structural, Debug, Clone, Copy)]
pub struct LlvmVersion {
    pub major: u64,
    pub minor: u64,
}

/// What is known of the host and of the toolchain that built the program.
#[derive(Debug, Clone)]
pub struct HostInfo {
    /// The operating system family, such as "unix" or "windows".
    pub family: String,
    /// The operating system, such as "linux".
    pub os: String,
    /// The processor architecture, such as "x86_64".
    pub arch: String,
    /// The compiler's short version string.
    pub rust_version: String,
    /// The code generator's version, when it could be determined.
    pub llvm_version: Option<LlvmVersion>,
}

/// Settings for writing messages: a colour for each severity, a bug report pointer, and
/// whether debug messages are shown.
#[derive(Debug, Clone)]
pub struct Config {
    /// The colour of each severity; a severity without one is shown in white.
    pub colors: ColorMap,
    /// The bug report pointer shown on a fatal error; a generic one is used when absent.
    pub bug_report: Option<HowToBugReport>,
    /// Whether messages of severity `Debug` are written.
    pub show_debug: bool,
}

/// The colour in which severity `s` is shown under the assignment `m`.
pub open spec fn resolve_color(m: Map<Severity, Color>, s: Severity) -> Color {
    if m.contains_key(s) {
        m[s]
    } else {
        Color::White
    }
}

/// The colours of a fresh configuration.
pub open spec fn default_colors() -> Map<Severity, Color> {
    Map::empty().insert(Severity::Error, Color::Red).insert(Severity::Warning, Color::Yellow).insert(
        Severity::Info,
        Color::Green,
    ).insert(Severity::Debug, Color::Blue)
}

/// The line written for a message: its severity's tag in brackets, then the message.
pub open spec fn line_text(s: Severity, message: Seq<char>) -> Seq<char> {
    "["@ + severity_label(s) + "] "@ + message
}

/// Whether `r` is what writing `message` at severity `s` under `c` gives: nothing for a
/// suppressed debug message, else the line shown in the severity's palette colour.
pub open spec fn written(c: Config, s: Severity, message: Seq<char>, r: Option<String>) -> bool {
    if s == Severity::Debug && !c.show_debug {
        r is None
    } else {
        &&& r is Some
        &&& styled(
            r->Some_0@,
            line_text(s, message),
            Color::Color256(palette_index(resolve_color(c.colors@, s))),
        )
        &&& contains(r->Some_0@, line_text(s, message))
    }
}

/// The code generator's version as text: "major.minor", or "unknown".
pub open spec fn llvm_text(v: Option<LlvmVersion>) -> Seq<char> {
    match v {
        Some(l) => decimal(l.major as nat) + "."@ + decimal(l.minor as nat),
        None => "unknown"@,
    }
}

/// The machine information line for host `h`.
pub open spec fn machine_info_text(h: HostInfo) -> Seq<char> {
    h.family@ + "-"@ + h.os@ + "-"@ + h.arch@ + " - Rust version "@ + h.rust_version@
        + ", running on LLVM "@ + llvm_text(h.llvm_version)
        + ". information stuff generated by humantalk "@ + VERSION@
}

/// The bug report message shown by `c` on a fatal error.
pub open spec fn bug_message(c: Config) -> Seq<char> {
    match c.bug_report {
        Some(b) => b.message@,
        None => "Oh no! The program has crashed"@,
    }
}

/// The bug report url shown by `c` on a fatal error.
pub open spec fn bug_url(c: Config) -> Seq<char> {
    match c.bug_report {
        Some(b) => b.url@,
        None => "the appropriate place"@,
    }
}

/// The body of a fatal report.
pub open spec fn fatal_text(message: Seq<char>, bug: Seq<char>, url: Seq<char>) -> Seq<char> {
    "[FATAL] "@ + message + "\n"@ + bug + ". Please submit a report to "@ + url
        + ", along with a copy of this error message, which can also be found in crash_report.log as plaintext."@
}

/// The labelled platform block of a fatal report.
pub open spec fn platform_text(h: HostInfo) -> Seq<char> {
    "[PLATFORM INFO]\n"@ + machine_info_text(h)
}

fn llvm_string(v: Option<LlvmVersion>) -> (r: String)
    ensures
        r@ == llvm_text(v),
{
    match v {
        Some(l) => {
            let mut r = decimal_string(l.major);
            r.append(".");
            r.append(decimal_string(l.minor).as_str());
            r
        },
        None => String::from_str("unknown"),
    }
}

/// The line written for `message` at `severity`, before it is coloured.
pub fn format_line(severity: &Severity, message: &str) -> (r: String)
    ensures
        r@ == line_text(*severity, message@),
{
    let mut r = String::from_str("[");
    r.append(severity.to_string().as_str());
    r.append("] ");
    r.append(message);
    r
}

/// The texts of a fatal report: its body, and the labelled platform block.
#[derive(Debug, Clone)]
pub struct FatalReport {
    /// The fatal message with the bug report pointer.
    pub report: String,
    /// "[PLATFORM INFO]" and the machine information below it.
    pub platform: String,
}

/// What became of the attempt to save a fatal report to its log file.
#[derive(PartialEq, Eq, Structural, Debug, Clone, Copy)]
pub enum ReportFile {
    /// The file was created and the report written to it.
    Written,
    /// The file could not be created.
    NotCreated,
    /// The file was created but writing to it failed.
    NotWritten,
}

/// How a fatal report ends the process: a notice to print first, if any, and the exit status.
#[derive(Debug, Clone)]
pub struct FatalExit {
    pub notice: Option<String>,
    pub code: i32,
}

/// The exit status of a fatal error whose report was saved.
pub const FATAL_REPORTED: i32 = 3;

/// The exit status of a fatal error whose report could not be saved.
pub const REPORT_FAILED: i32 = -1;

/// The notice printed when the report's log file cannot be created.
pub open spec fn not_created_notice() -> Seq<char> {
    "Failed to create debug file - just copy the information displayed above."@
}

/// The notice printed when writing to the report's log file fails.
pub open spec fn not_written_notice() -> Seq<char> {
    "Failed to write to debug file - just copy the information displayed above."@
}

/// How the process ends once saving the report came to `outcome`.
pub fn fatal_exit(outcome: ReportFile) -> (r: FatalExit)
    ensures
        outcome == ReportFile::Written ==> r.code == FATAL_REPORTED && r.notice is None,
        outcome == ReportFile::NotCreated ==> r.code == REPORT_FAILED && r.notice is Some
            && r.notice->Some_0@ == not_created_notice(),
        outcome == ReportFile::NotWritten ==> r.code == REPORT_FAILED && r.notice is Some
            && r.notice->Some_0@ == not_written_notice(),
        r.code == FATAL_REPORTED <==> outcome == ReportFile::Written,
{
    match outcome {
        ReportFile::Written => FatalExit { notice: None, code: FATAL_REPORTED },
        ReportFile::NotCreated => FatalExit {
            notice: Some(
                String::from_str(
                    "Failed to create debug file - just copy the information displayed above.",
                ),
            ),
            code: REPORT_FAILED,
        },
        ReportFile::NotWritten => FatalExit {
            notice: Some(
                String::from_str(
                    "Failed to write to debug file - just copy the information displayed above.",
                ),
            ),
            code: REPORT_FAILED,
        },
    }
}

impl FatalReport {
    /// The report body as shown on screen: in red, followed by an empty line.
    pub fn screen_report(&self) -> (r: String)
        ensures
            styled(r@, self.report@ + "\n\n"@, Color::Red),
            contains(r@, self.report@),
    {
        let mut text = self.report.clone();
        text.append("\n\n");
        let r = paint(text, Color::Red);
        proof {
            lemma_styled_contains(r@, self.report@ + "\n\n"@, Color::Red);
            lemma_contains_framed(Seq::empty(), self.report@, "\n\n"@);
            assert(Seq::<char>::empty() + self.report@ + "\n\n"@ =~= self.report@ + "\n\n"@);
            lemma_contains_trans(r@, self.report@ + "\n\n"@, self.report@);
        }
        r
    }

    /// The platform block as shown on screen, in cyan.
    pub fn screen_platform(&self) -> (r: String)
        ensures
            styled(r@, self.platform@, Color::Cyan),
            contains(r@, self.platform@),
    {
        let r = paint(self.platform.clone(), Color::Cyan);
        proof {
            lemma_styled_contains(r@, self.platform@, Color::Cyan);
        }
        r
    }

    /// What the log file holds: the report body, a line break, and the platform block.
    pub fn file_contents(&self) -> (r: String)
        ensures
            r@ == self.report@ + "\n"@ + self.platform@,
    {
        let mut r = self.report.clone();
        r.append("\n");
        r.append(self.platform.as_str());
        r
    }
}

impl Config {
    /// A configuration with error in red, warning in yellow, info in green and debug in blue,
    /// no bug report pointer, and debug messages shown.
    pub fn default() -> (r: Config)
        ensures
            r.colors@ == default_colors(),
            r.bug_report is None,
            r.show_debug,
    {
        let mut colors = ColorMap::new();
        colors.insert(Severity::Error, Color::Red);
        colors.insert(Severity::Warning, Color::Yellow);
        colors.insert(Severity::Info, Color::Green);
        colors.insert(Severity::Debug, Color::Blue);
        Config { colors, bug_report: None, show_debug: true }
    }

    /// A configuration with the given colours and bug report pointer, debug messages shown.
    pub fn custom(colors: ColorMap, bug_report: HowToBugReport) -> (r: Config)
        ensures
            r.colors == colors,
            r.bug_report == Some(bug_report),
            r.show_debug,
    {
        Config { colors, bug_report: Some(bug_report), show_debug: true }
    }

    /// The colour in which `severity` is shown: its assigned colour, else white.
    pub fn get_color(&self, severity: &Severity) -> (r: Color)
        ensures
            r == resolve_color(self.colors@, *severity),
    {
        match self.colors.get(severity) {
            Some(color) => color,
            None => Color::White,
        }
    }

    /// Assigns `color` to `severity`, leaving every other setting as it was.
    pub fn set_color(&mut self, severity: Severity, color: Color)
        ensures
            final(self).colors@ == old(self).colors@.insert(severity, color),
            final(self).bug_report == old(self).bug_report,
            final(self).show_debug == old(self).show_debug,
    {
        let _ = self.colors.remove(&severity);
        self.colors.insert(severity, color);
    }

    /// The coloured line to print for `message` at `severity`, or `None` when the message is a
    /// debug message and debug messages are not shown.
    pub fn write(&self, severity: Severity, message: &str) -> (r: Option<String>)
        ensures
            written(*self, severity, message@, r),
    {
        if severity == Severity::Debug && !self.show_debug {
            return None;
        }
        let color = self.get_color(&severity);
        let line = format_line(&severity, message);
        let styled_line = paint(line, Color::Color256(color.to_color256()));
        proof {
            lemma_styled_contains(
                styled_line@,
                line_text(severity, message@),
                Color::Color256(palette_index(color)),
            );
        }
        Some(styled_line)
    }

    /// What `write` gives at severity `Debug`.
    pub fn debug(&self, message: &str) -> (r: Option<String>)
        ensures
            written(*self, Severity::Debug, message@, r),
    {
        self.write(Severity::Debug, message)
    }

    /// What `write` gives at severity `Info`.
    pub fn info(&self, message: &str) -> (r: Option<String>)
        ensures
            written(*self, Severity::Info, message@, r),
    {
        self.write(Severity::Info, message)
    }

    /// What `write` gives at severity `Error`.
    pub fn error(&self, message: &str) -> (r: Option<String>)
        ensures
            written(*self, Severity::Error, message@, r),
    {
        self.write(Severity::Error, message)
    }

    /// What `write` gives at severity `Warning`.
    pub fn warning(&self, message: &str) -> (r: Option<String>)
        ensures
            written(*self, Severity::Warning, message@, r),
    {
        self.write(Severity::Warning, message)
    }

    /// One line on the host: OS family, OS, architecture, compiler and code generator versions,
    /// and the version of this library.
    pub fn machine_info(&self, host: &HostInfo) -> (r: String)
        ensures
            r@ == machine_info_text(*host),
            r@.len() > 0,
    {
        let mut r = host.family.clone();
        r.append("-");
        r.append(host.os.as_str());
        r.append("-");
        r.append(host.arch.as_str());
        r.append(" - Rust version ");
        r.append(host.rust_version.as_str());
        r.append(", running on LLVM ");
        r.append(llvm_string(host.llvm_version).as_str());
        r.append(". information stuff generated by humantalk ");
        r.append(VERSION);
        proof {
            lemma_machine_info_nonempty(*host);
        }
        r
    }

    /// The fatal report for `message` on `host`, with this configuration's bug report pointer
    /// or the generic one.
    pub fn fatal_error(&self, message: &str, host: &HostInfo) -> (r: FatalReport)
        ensures
            r.report@ == fatal_text(message@, bug_message(*self), bug_url(*self)),
            r.platform@ == platform_text(*host),
    {
        let (bug, url) = match &self.bug_report {
            Some(b) => (b.message.as_str(), b.url.as_str()),
            None => ("Oh no! The program has crashed", "the appropriate place"),
        };
        let mut report = String::from_str("[FATAL] ");
        report.append(message);
        report.append("\n");
        report.append(bug);
        report.append(". Please submit a report to ");
        report.append(url);
        report.append(
            ", along with a copy of this error message, which can also be found in crash_report.log as plaintext.",
        );
        let mut platform = String::from_str("[PLATFORM INFO]\n");
        platform.append(self.machine_info(host).as_str());
        FatalReport { report, platform }
    }
}

/// A severity is shown in its assigned colour, and in white when it has none.
pub proof fn lemma_resolve_color(m: Map<Severity, Color>, s: Severity)
    ensures
        m.contains_key(s) ==> resolve_color(m, s) == m[s],
        !m.contains_key(s) ==> resolve_color(m, s) == Color::White,
        resolve_color(Map::empty(), s) == Color::White,
{
}

/// After a colour is set for a severity, that severity is shown in it, and every other
/// severity is shown as before.
pub proof fn lemma_set_then_get(m: Map<Severity, Color>, s: Severity, c: Color, t: Severity)
    ensures
        resolve_color(m.insert(s, c), s) == c,
        t != s ==> resolve_color(m.insert(s, c), t) == resolve_color(m, t),
{
}

/// A fatal report holds the fatal message, the bug report message and its url; the log file
/// holds them too, with the platform block.
pub proof fn lemma_fatal_report_mentions(
    message: Seq<char>,
    bug: Seq<char>,
    url: Seq<char>,
    h: HostInfo,
)
    ensures
        contains(fatal_text(message, bug, url), "[FATAL] "@ + message),
        contains(fatal_text(message, bug, url), bug),
        contains(fatal_text(message, bug, url), url),
        contains(fatal_text(message, bug, url) + "\n"@ + platform_text(h), "[FATAL] "@ + message),
        contains(fatal_text(message, bug, url) + "\n"@ + platform_text(h), bug),
        contains(fatal_text(message, bug, url) + "\n"@ + platform_text(h), url),
        contains(fatal_text(message, bug, url) + "\n"@ + platform_text(h), "[PLATFORM INFO]\n"@),
{
    let head: Seq<char> = "[FATAL] "@ + message;
    let mid: Seq<char> = ". Please submit a report to "@;
    let tail: Seq<char> =
        ", along with a copy of this error message, which can also be found in crash_report.log as plaintext."@;
    let nl: Seq<char> = "\n"@;
    let t = fatal_text(message, bug, url);
    let file = t + nl + platform_text(h);
    lemma_contains_framed(Seq::empty(), head, nl + bug + mid + url + tail);
    assert(Seq::<char>::empty() + head + (nl + bug + mid + url + tail) =~= t);
    lemma_contains_framed(head + nl, bug, mid + url + tail);
    assert(head + nl + bug + (mid + url + tail) =~= t);
    lemma_contains_framed(head + nl + bug + mid, url, tail);
    assert(head + nl + bug + mid + url + tail =~= t);
    lemma_contains_framed(Seq::empty(), t, nl + platform_text(h));
    assert(Seq::<char>::empty() + t + (nl + platform_text(h)) =~= file);
    lemma_contains_trans(file, t, head);
    lemma_contains_trans(file, t, bug);
    lemma_contains_trans(file, t, url);
    lemma_contains_framed(t + nl, "[PLATFORM INFO]\n"@, machine_info_text(h));
    assert(t + nl + "[PLATFORM INFO]\n"@ + machine_info_text(h) =~= file);
}

/// Machine information is never empty.
pub proof fn lemma_machine_info_nonempty(h: HostInfo)
    ensures
        machine_info_text(h).len() > 0,
{
    reveal_strlit("-");
}

} // verus!
