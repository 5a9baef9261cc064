//! The settings of the whole service.

use vstd::prelude::*;
use crate::config::DatabaseConfig;
use crate::telemetry::{TelemetryConfig, TelemetryLevels};

verus! {

/// The settings of the whole service: logging, and the database.
#[derive(Debug)]
pub struct LedgerConfig {
    pub telemetry: TelemetryConfig,
    pub database: DatabaseConfig,
}

impl LedgerConfig {
    /// The name of the application, as it stands in the paths of its
    /// configuration files.
    pub fn application_name() -> (name: &'static str)
        ensures
            name@ == "personal-ledger"@,
    {
        "personal-ledger"
    }

    /// The prefix of the environment variables that override settings.
    pub fn env_prefix() -> (prefix: &'static str)
        ensures
            prefix@ == "PERSONAL_LEDGER"@,
    {
        "PERSONAL_LEDGER"
    }

    /// The settings of logging.
    pub fn telemetry_config(&self) -> (config: &TelemetryConfig)
        ensures
            *config == self.telemetry,
    {
        &self.telemetry
    }

    /// The settings of the database.
    pub fn database_config(&self) -> (config: &DatabaseConfig)
        ensures
            *config == self.database,
    {
        &self.database
    }
}

impl Default for LedgerConfig {
    fn default() -> (config: LedgerConfig)
        ensures
            config.telemetry.telemetry_level == TelemetryLevels::INFO,
            config.database.is_default(),
    {
        LedgerConfig { telemetry: TelemetryConfig::default(), database: DatabaseConfig::default() }
    }
}

impl Clone for LedgerConfig {
    fn clone(&self) -> (copy: LedgerConfig)
        ensures
            copy == *self,
    {
        LedgerConfig {
            telemetry: self.telemetry.clone(),
            database: self.database.clone(),
        }
    }
}

/// The index of the first line feed at or after `from`; the length of the
/// text if there is none.
pub open spec fn line_end(text: Seq<char>, from: int) -> int
    decreases text.len() - from,
{
    if from < 0 || from >= text.len() {
        text.len() as int
    } else if text[from] == '\n' {
        from
    } else {
        line_end(text, from + 1)
    }
}

/// A line feed's line without the carriage return that may stand before
/// the line feed.
pub open spec fn without_return(line: Seq<char>) -> Seq<char> {
    if line.len() > 0 && line.last() == '\r' {
        line.drop_last()
    } else {
        line
    }
}

/// The end of a line lies at or after its start, within the text.
pub proof fn lemma_line_end(text: Seq<char>, from: int)
    requires
        0 <= from <= text.len(),
    ensures
        from <= line_end(text, from) <= text.len(),
    decreases text.len() - from,
{
    if from < text.len() && text[from] != '\n' {
        lemma_line_end(text, from + 1);
    }
}

/// The lines of the text from index `from` on.
pub open spec fn lines_from(text: Seq<char>, from: int) -> Seq<Seq<char>>
    decreases text.len() - from,
{
    if from < 0 || from >= text.len() {
        Seq::empty()
    } else {
        let end = line_end(text, from);
        if end < text.len() {
            proof {
                lemma_line_end(text, from);
            }
            seq![without_return(text.subrange(from, end))] + lines_from(text, end + 1)
        } else {
            seq![text.subrange(from, text.len() as int)]
        }
    }
}

/// The lines of a text: a line ends at a line feed, or at a carriage
/// return followed by a line feed, and holds neither; a carriage return
/// that no line feed follows is part of its line; what follows the last
/// line feed is a line only if it is not empty.
pub open spec fn text_lines(text: Seq<char>) -> Seq<Seq<char>> {
    lines_from(text, 0)
}

/// A text without the white space at its ends, as `str::trim` of std cuts
/// it.
pub uninterp spec fn text_trimmed(text: Seq<char>) -> Seq<char>;

/// A text in lowercase, as `str::to_lowercase` of std turns it.
pub uninterp spec fn text_lowered(text: Seq<char>) -> Seq<char>;

/// The characters of each string of a sequence.
pub open spec fn texts(lines: Seq<String>) -> Seq<Seq<char>> {
    Seq::new(lines.len(), |i: int| lines[i]@)
}

/// `str::lines` of std: the lines of a text, each as a string of its own.
/// Its documentation says that lines are split at a line feed or at a
/// carriage return followed by a line feed, that the line holds neither,
/// that a carriage return not followed by a line feed is data, and that a
/// final line ending adds no empty line.
#[verifier::external_body]
fn lines_of(text: &str) -> (lines: Vec<String>)
    ensures
        texts(lines@) == text_lines(text@),
{
    text.lines().map(|line| line.to_string()).collect()
}

/// `str::trim` of std: the text without the white space at its ends. What
/// counts as white space is std's matter; the same text always gives the
/// same result.
#[verifier::external_body]
fn trim(text: &str) -> (trimmed: &str)
    ensures
        trimmed@ == text_trimmed(text@),
{
    text.trim()
}

/// `str::to_lowercase` of std: the text in lowercase. Which characters
/// have a lowercase is std's matter; the same text always gives the same
/// result.
#[verifier::external_body]
fn to_lowercase(text: &str) -> (lowered: String)
    ensures
        lowered@ == text_lowered(text@),
{
    text.to_lowercase()
}

/// A line of a configuration file with the name of its section in
/// lowercase: a line that, white space at its ends aside, opens with `[`
/// and closes with `]` becomes the brackets around the lowercase of what
/// stands between them; any other line stays as it is.
pub open spec fn normal_line(line: Seq<char>) -> Seq<char> {
    let t = text_trimmed(line);
    if t.len() >= 2 && t.first() == '[' && t.last() == ']' {
        "["@ + text_lowered(t.subrange(1, t.len() - 1)) + "]"@
    } else {
        line
    }
}

/// The first `n` lines, each made normal, with a line feed between one and
/// the next.
pub open spec fn joined(lines: Seq<Seq<char>>, n: int) -> Seq<char>
    decreases n,
{
    if n <= 0 {
        Seq::empty()
    } else if n == 1 {
        normal_line(lines[0])
    } else {
        joined(lines, n - 1) + "\n"@ + normal_line(lines[n - 1])
    }
}

/// A configuration file with the names of its sections in lowercase.
pub open spec fn normal_text(content: Seq<char>) -> Seq<char> {
    joined(text_lines(content), text_lines(content).len() as int)
}

fn normalise_line(line: &str) -> (normal: String)
    ensures
        normal@ == normal_line(line@),
{
    let t = trim(line);
    let n = t.unicode_len();
    if n >= 2 && t.get_char(0) == '[' && t.get_char(n - 1) == ']' {
        let inner = to_lowercase(t.substring_char(1, n - 1));
        String::from_str("[").concat(inner.as_str()).concat("]")
    } else {
        String::from_str(line)
    }
}

impl LedgerConfig {
    /// The name of a configuration file of the application.
    pub fn config_file_name() -> (name: String)
        ensures
            name@ == "personal-ledger"@ + ".conf"@,
    {
        String::from_str(LedgerConfig::application_name()).concat(".conf")
    }

    /// Turns the names of the sections of a configuration file to
    /// lowercase, line by line, so that a section is found whatever the
    /// case it was written in.
    pub fn normalise_ini(content: &str) -> (normal: String)
        ensures
            normal@ == normal_text(content@),
    {
        let lines = lines_of(content);
        let mut normal = String::new();
        let mut i: usize = 0;
        while i < lines.len()
            invariant
                i <= lines@.len(),
                texts(lines@) == text_lines(content@),
                normal@ == joined(text_lines(content@), i as int),
            decreases lines@.len() - i,
        {
            assert(texts(lines@)[i as int] == lines@[i as int]@);
            let line = normalise_line(lines[i].as_str());
            if i > 0 {
                normal.append("\n");
            }
            normal.append(line.as_str());
            i = i + 1;
        }
        assert(texts(lines@).len() == lines@.len());
        normal
    }
}

/// The places where a configuration file may lie, each absent or the path
/// of a file.
#[derive(Debug, PartialEq, Eq)]
pub struct ConfigPlaces {
    /// The file for every user of the machine.
    pub system: Option<String>,
    /// The file of the user.
    pub user: Option<String>,
    /// The file beside the executable.
    pub executable: Option<String>,
    /// The file under the working directory.
    pub working: Option<String>,
    /// The file that was named on the command line.
    pub explicit: Option<String>,
}

/// A sequence with the text of `place` at its end, if `place` is there.
pub open spec fn with_place(files: Seq<Seq<char>>, place: Option<String>) -> Seq<Seq<char>> {
    match place {
        Some(path) => files.push(path@),
        None => files,
    }
}

/// The configuration files to read, lowest precedence first: the file for
/// every user, the user's, the one beside the executable, the one under the
/// working directory, the one that was named. Where a file was named, the
/// one under the working directory is left out.
pub open spec fn reading_order(places: ConfigPlaces) -> Seq<Seq<char>> {
    let base = with_place(
        with_place(with_place(Seq::empty(), places.system), places.user),
        places.executable,
    );
    match places.explicit {
        Some(path) => base.push(path@),
        None => with_place(base, places.working),
    }
}

fn add_place(files: &mut Vec<String>, place: &Option<String>)
    ensures
        texts(final(files)@) == with_place(texts(old(files)@), *place),
{
    match place {
        Some(path) => {
            files.push(path.clone());
            assert(texts(files@) =~= texts(old(files)@).push(path@));
        },
        None => {},
    }
}

impl LedgerConfig {
    /// The configuration files to read, in the order in which they are
    /// read: a later file overrides an earlier one.
    pub fn reading_order(places: &ConfigPlaces) -> (files: Vec<String>)
        ensures
            texts(files@) == reading_order(*places),
    {
        let mut files: Vec<String> = Vec::new();
        assert(texts(files@) =~= Seq::<Seq<char>>::empty());
        add_place(&mut files, &places.system);
        add_place(&mut files, &places.user);
        add_place(&mut files, &places.executable);
        if places.explicit.is_some() {
            add_place(&mut files, &places.explicit);
        } else {
            add_place(&mut files, &places.working);
        }
        files
    }
}

} // verus!
