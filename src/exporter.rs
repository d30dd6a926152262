use vstd::prelude::*;
use vstd::string::*;

use crate::task::{PriorityEnum, Task};
use crate::todolist::TodoList;

verus! {

/// The formats the list can be written in.
#[derive(Clone, Copy, Debug, PartialEq, Eq, Structural)]
pub enum FormatEnum {
    Json,
    Csv,
    Yaml,
    Markdown,
}

/// Why an export failed.
pub enum ExportError {
    SerializationError(String),
    IoError(std::io::Error),
}

#[verifier::external_type_specification]
#[verifier::external_body]
pub struct ExIoError(std::io::Error);

/// The JSON form: the save file itself, at the bound path, and the only form
/// read back. Its encoding is serde's, so the program around the library writes it.
pub struct JsonExporter;

/// The CSV form, at the path with extension `csv`: `records` gives a header and
/// one record per task; the program around the library hands them to a CSV writer.
pub struct CsvExporter;

/// The YAML form, at the path with extension `yaml`. Its encoding is serde's, so
/// the program around the library writes it.
pub struct YamlExporter;

/// The Markdown form, at the path with extension `md`: `render` gives one
/// checklist line per task; the program around the library writes the text.
pub struct MarkdownExporter;

/// The path that std's `Path::with_extension` gives for `path` and `ext`.
pub uninterp spec fn path_with_extension(path: Seq<char>, ext: Seq<char>) -> Seq<char>;

/// An extension holds no path separator.
pub open spec fn plain_extension(ext: Seq<char>) -> bool {
    forall|i: int| 0 <= i < ext.len() ==> ext[i] != '/' && ext[i] != '\\'
}

/// Relies on std's `Path::with_extension`: `path` with its extension replaced by
/// `ext` (or `ext` added where it has none). `set_extension` panics on an
/// extension that holds a path separator, which `requires` leaves out. A path
/// made from a `str` and a `str` extension is valid UTF-8, so the lossy
/// conversion back loses nothing.
#[verifier::external_body]
fn with_extension(path: &str, ext: &str) -> (r: String)
    requires
        plain_extension(ext@),
    ensures
        r@ == path_with_extension(path@, ext@),
{
    std::path::Path::new(path).with_extension(ext).to_string_lossy().into_owned()
}

/// The extension that a format's file gets; `None` for JSON, which is written
/// to the bound path itself.
pub open spec fn extension_of(f: FormatEnum) -> Option<Seq<char>> {
    match f {
        FormatEnum::Json => None,
        FormatEnum::Csv => Some("csv"@),
        FormatEnum::Yaml => Some("yaml"@),
        FormatEnum::Markdown => Some("md"@),
    }
}

/// Where a format's file goes for a list bound to `path`.
pub open spec fn destination_of(f: FormatEnum, path: Seq<char>) -> Seq<char> {
    match extension_of(f) {
        Some(ext) => path_with_extension(path, ext),
        None => path,
    }
}

impl FormatEnum {
    /// The extension that this format's file gets; `None` for JSON.
    pub fn extension(&self) -> (r: Option<&'static str>)
        ensures
            r matches Some(e) ==> extension_of(*self) == Some(e@) && plain_extension(e@),
            r is None <==> extension_of(*self) is None,
    {
        proof {
            reveal_strlit("csv");
            reveal_strlit("yaml");
            reveal_strlit("md");
        }
        match self {
            FormatEnum::Json => None,
            FormatEnum::Csv => Some("csv"),
            FormatEnum::Yaml => Some("yaml"),
            FormatEnum::Markdown => Some("md"),
        }
    }

    /// Where this format's file goes for a list bound to `path`.
    pub fn destination(&self, path: &str) -> (r: String)
        ensures
            r@ == destination_of(*self, path@),
    {
        match self.extension() {
            Some(ext) => with_extension(path, ext),
            None => path.to_string(),
        }
    }
}

/// The Markdown line of a task: checked for a done task, unchecked for a pending one.
pub open spec fn markdown_line(t: Task) -> Seq<char> {
    "- ["@ + (if t.done {
        "x"@
    } else {
        " "@
    }) + "] "@ + t.title@ + " - Created at "@ + t.created_at.text() + match t.completed_at {
        Some(c) => " - Completed at "@ + c.text(),
        None => Seq::empty(),
    } + "\n"@
}

/// The Markdown document of a task sequence: its lines one after another.
pub open spec fn markdown_of(s: Seq<Task>) -> Seq<char>
    decreases s.len(),
{
    if s.len() == 0 {
        Seq::empty()
    } else {
        markdown_of(s.drop_last()) + markdown_line(s.last())
    }
}

impl MarkdownExporter {
    /// The Markdown checklist of the list.
    pub fn render(&self, todolist: &TodoList) -> (r: String)
        ensures
            r@ == markdown_of(todolist.tasks@),
    {
        let tasks = &todolist.tasks;
        let mut out = String::new();
        let mut i: usize = 0;
        while i < tasks.len()
            invariant
                0 <= i <= tasks@.len(),
                out@ == markdown_of(tasks@.subrange(0, i as int)),
            decreases tasks@.len() - i,
        {
            let ghost before = out@;
            let t = &tasks[i];
            out.append("- [");
            if t.done {
                out.append("x");
            } else {
                out.append(" ");
            }
            out.append("] ");
            out.append(t.title.as_str());
            out.append(" - Created at ");
            let created = t.created_at.display_text();
            out.append(created.as_str());
            match &t.completed_at {
                Some(c) => {
                    out.append(" - Completed at ");
                    let text = c.display_text();
                    out.append(text.as_str());
                },
                None => {},
            }
            out.append("\n");
            proof {
                assert(out@ =~= before + markdown_line(*t));
                assert(tasks@.subrange(0, i + 1).drop_last() =~= tasks@.subrange(0, i as int));
            }
            i += 1;
        }
        assert(tasks@.subrange(0, tasks@.len() as int) =~= tasks@);
        out
    }
}

/// The decimal digits of `n`.
pub open spec fn digits_of(n: nat) -> Seq<char>
    decreases n,
{
    if n < 10 {
        seq![(n + '0' as nat) as char]
    } else {
        digits_of(n / 10).push(((n % 10) + '0' as nat) as char)
    }
}

/// `n` in decimal, with a leading `-` when negative.
pub open spec fn decimal_of(n: int) -> Seq<char> {
    if n < 0 {
        seq!['-'] + digits_of((-n) as nat)
    } else {
        digits_of(n as nat)
    }
}

fn digit_text(d: u32) -> (r: &'static str)
    requires
        d < 10,
    ensures
        r@ == seq![(d + '0' as nat) as char],
{
    proof {
        reveal_strlit("0");
        reveal_strlit("1");
        reveal_strlit("2");
        reveal_strlit("3");
        reveal_strlit("4");
        reveal_strlit("5");
        reveal_strlit("6");
        reveal_strlit("7");
        reveal_strlit("8");
        reveal_strlit("9");
    }
    if d == 0 {
        "0"
    } else if d == 1 {
        "1"
    } else if d == 2 {
        "2"
    } else if d == 3 {
        "3"
    } else if d == 4 {
        "4"
    } else if d == 5 {
        "5"
    } else if d == 6 {
        "6"
    } else if d == 7 {
        "7"
    } else if d == 8 {
        "8"
    } else {
        "9"
    }
}

fn digits(n: u32) -> (r: String)
    ensures
        r@ == digits_of(n as nat),
    decreases n,
{
    if n < 10 {
        text(digit_text(n))
    } else {
        let mut out = digits(n / 10);
        out.append(digit_text(n % 10));
        out
    }
}

/// `n` in decimal, with a leading `-` when negative.
pub fn decimal(n: i32) -> (r: String)
    ensures
        r@ == decimal_of(n as int),
{
    if n < 0 {
        let magnitude: u32 = (-(n as i64)) as u32;
        let mut out = text("-");
        let rest = digits(magnitude);
        out.append(rest.as_str());
        proof {
            reveal_strlit("-");
        }
        out
    } else {
        digits(n as u32)
    }
}

/// The text of a flag in a CSV record.
pub open spec fn bool_text(b: bool) -> Seq<char> {
    if b {
        "true"@
    } else {
        "false"@
    }
}

/// The name of a priority level in a CSV record.
pub open spec fn priority_name(p: PriorityEnum) -> Seq<char> {
    match p {
        PriorityEnum::High => "High"@,
        PriorityEnum::Medium => "Medium"@,
        PriorityEnum::Low => "Low"@,
    }
}

/// The header record: the task fields in their order.
pub open spec fn csv_header() -> Seq<Seq<char>> {
    seq!["id"@, "title"@, "done"@, "created_at"@, "completed_at"@, "priority"@]
}

/// The CSV record of a task; an absent time or priority is an empty field.
pub open spec fn csv_row(t: Task) -> Seq<Seq<char>> {
    seq![
        decimal_of(t.id as int),
        t.title@,
        bool_text(t.done),
        t.created_at.rfc3339(),
        match t.completed_at {
            Some(c) => c.rfc3339(),
            None => Seq::empty(),
        },
        match t.priority {
            Some(p) => priority_name(p),
            None => Seq::empty(),
        },
    ]
}

/// The texts of a record.
pub open spec fn record_texts(r: Seq<String>) -> Seq<Seq<char>> {
    r.map_values(|f: String| f@)
}

/// The texts of a sequence of records.
pub open spec fn records_texts(r: Seq<Vec<String>>) -> Seq<Seq<Seq<char>>> {
    r.map_values(|rec: Vec<String>| record_texts(rec@))
}

/// The records of a list: the header, then one record per task in list order.
pub open spec fn csv_of(s: Seq<Task>) -> Seq<Seq<Seq<char>>> {
    seq![csv_header()] + s.map_values(|t: Task| csv_row(t))
}

fn text(s: &str) -> (r: String)
    ensures
        r@ == s@,
{
    s.to_string()
}

fn csv_record(t: &Task) -> (r: Vec<String>)
    ensures
        record_texts(r@) == csv_row(*t),
{
    let mut r: Vec<String> = Vec::new();
    r.push(decimal(t.id));
    r.push(t.title.clone());
    r.push(if t.done {
        text("true")
    } else {
        text("false")
    });
    r.push(t.created_at.rfc3339_text());
    r.push(
        match &t.completed_at {
            Some(c) => c.rfc3339_text(),
            None => String::new(),
        },
    );
    r.push(
        match &t.priority {
            Some(PriorityEnum::High) => text("High"),
            Some(PriorityEnum::Medium) => text("Medium"),
            Some(PriorityEnum::Low) => text("Low"),
            None => String::new(),
        },
    );
    assert(record_texts(r@) =~= csv_row(*t));
    r
}

impl CsvExporter {
    /// The CSV records of the list: a header naming the task fields, then one
    /// record per task.
    pub fn records(&self, todolist: &TodoList) -> (r: Vec<Vec<String>>)
        ensures
            records_texts(r@) == csv_of(todolist.tasks@),
    {
        let tasks = &todolist.tasks;
        let mut out: Vec<Vec<String>> = Vec::new();
        let mut header: Vec<String> = Vec::new();
        header.push(text("id"));
        header.push(text("title"));
        header.push(text("done"));
        header.push(text("created_at"));
        header.push(text("completed_at"));
        header.push(text("priority"));
        assert(record_texts(header@) =~= csv_header());
        out.push(header);
        let mut i: usize = 0;
        while i < tasks.len()
            invariant
                0 <= i <= tasks@.len(),
                records_texts(out@) == csv_of(tasks@.subrange(0, i as int)),
            decreases tasks@.len() - i,
        {
            let ghost before = out@;
            let rec = csv_record(&tasks[i]);
            out.push(rec);
            proof {
                assert(records_texts(out@) =~= records_texts(before).push(csv_row(tasks@[i as int])));
                assert(csv_of(tasks@.subrange(0, i + 1)) =~= csv_of(tasks@.subrange(0, i as int)).push(
                    csv_row(tasks@[i as int]),
                ));
            }
            i += 1;
        }
        assert(tasks@.subrange(0, tasks@.len() as int) =~= tasks@);
        out
    }
}

} // verus!
