//! Rendering: every line the shell prints is built here, stated exactly, so
//! that the loop around it only performs the printing. A failed query is
//! rendered, never propagated: the error line is the whole of its effect.
use vstd::prelude::*;
use vstd::string::*;

verus! {

/// The fixed command reference the help meta-command prints.
pub open spec fn help_text() -> Seq<Seq<char>> {
    seq![
        "Available commands:"@,
        "  .tables       List all registered tables"@,
        "  .exit, .quit  Exit the shell"@,
        "  .help         Show this message"@,
        "  <SQL>         Run any SQL query"@,
    ]
}

/// The line the table listing devotes to one registered name.
pub open spec fn listing_line(name: Seq<char>) -> Seq<char> {
    "  - "@ + name
}

/// The full output of the tables meta-command: a header, then one line per
/// registered name, in registration order.
pub open spec fn table_listing(names: Seq<Seq<char>>) -> Seq<Seq<char>> {
    seq!["Registered Tables:"@] + names.map_values(|n: Seq<char>| listing_line(n))
}

/// The notice for an unrecognized meta-command, naming the offending line
/// and pointing at the help token.
pub open spec fn unknown_command_line(raw: Seq<char>) -> Seq<char> {
    "Unknown command: '"@ + raw + "'. Type .help for instructions."@
}

/// The marker line a rejected query is reported under.
pub open spec fn query_error_line(message: Seq<char>) -> Seq<char> {
    "SQL Error: "@ + message
}

/// The report for a result that could not be displayed.
pub open spec fn display_error_line(message: Seq<char>) -> Seq<char> {
    "Error displaying results: "@ + message
}

/// The report for a fault while reading the next line.
pub open spec fn read_fault_line(message: Seq<char>) -> Seq<char> {
    "Error: "@ + message
}

/// The fixed help text, one line per entry.
pub fn help_lines() -> (r: Vec<String>)
    ensures
        r.deep_view() == help_text(),
{
    let mut out: Vec<String> = Vec::new();
    out.push(String::from_str("Available commands:"));
    out.push(String::from_str("  .tables       List all registered tables"));
    out.push(String::from_str("  .exit, .quit  Exit the shell"));
    out.push(String::from_str("  .help         Show this message"));
    out.push(String::from_str("  <SQL>         Run any SQL query"));
    proof {
        assert(out.deep_view() =~= help_text());
    }
    out
}

/// The tables listing for the given registered names.
pub fn table_listing_lines(names: &Vec<String>) -> (r: Vec<String>)
    ensures
        r.deep_view() == table_listing(names.deep_view()),
{
    let mut out: Vec<String> = Vec::new();
    out.push(String::from_str("Registered Tables:"));
    let mut i: usize = 0;
    while i < names.len()
        invariant
            i <= names.len(),
            out@.len() == i + 1,
            out.deep_view()[0] == "Registered Tables:"@,
            forall|j: int| 0 <= j < i ==> out.deep_view()[j + 1] == listing_line(
                names.deep_view()[j],
            ),
        decreases names.len() - i,
    {
        let line = String::from_str("  - ").concat(names[i].as_str());
        out.push(line);
        i += 1;
    }
    proof {
        assert(out.deep_view() =~= table_listing(names.deep_view()));
    }
    out
}

/// The notice for an unrecognized meta-command.
pub fn render_unknown_command(raw: &str) -> (r: String)
    ensures
        r@ == unknown_command_line(raw@),
{
    let msg = String::from_str("Unknown command: '").concat(raw).concat(
        "'. Type .help for instructions.",
    );
    msg
}

/// The error line for a rejected query.
pub fn render_query_error(message: &str) -> (r: String)
    ensures
        r@ == query_error_line(message@),
{
    String::from_str("SQL Error: ").concat(message)
}

/// The error line for a result that could not be displayed.
pub fn render_display_error(message: &str) -> (r: String)
    ensures
        r@ == display_error_line(message@),
{
    String::from_str("Error displaying results: ").concat(message)
}

/// The report for a fault while reading input.
pub fn render_read_fault(message: &str) -> (r: String)
    ensures
        r@ == read_fault_line(message@),
{
    String::from_str("Error: ").concat(message)
}

/// The acknowledgment printed when the user interrupts the session.
pub fn interrupt_ack() -> (r: String)
    ensures
        r@ == "CTRL-C"@,
{
    String::from_str("CTRL-C")
}

/// The acknowledgment printed when the input stream closes.
pub fn end_of_input_ack() -> (r: String)
    ensures
        r@ == "CTRL-D"@,
{
    String::from_str("CTRL-D")
}

/// The prompt printed before each read.
pub fn prompt_text() -> (r: String)
    ensures
        r@ == "query-fuse > "@,
{
    String::from_str("query-fuse > ")
}

/// The message printed before the load begins, naming the input path.
pub fn loading_line(path: &str) -> (r: String)
    ensures
        r@ == "Loading data from "@ + path@ + "..."@,
{
    String::from_str("Loading data from ").concat(path).concat("...")
}

/// The welcome banner printed after a successful load, naming the
/// registered table.
pub open spec fn banner_text(name: Seq<char>) -> Seq<Seq<char>> {
    seq![
        "Data loaded successfully."@,
        "Table registered as '"@ + name + "'."@,
        "Type .help for available commands."@,
        "----------------------------------------"@,
    ]
}

/// The welcome banner, one line per entry.
pub fn banner_lines(name: &str) -> (r: Vec<String>)
    ensures
        r.deep_view() == banner_text(name@),
{
    let mut out: Vec<String> = Vec::new();
    out.push(String::from_str("Data loaded successfully."));
    out.push(String::from_str("Table registered as '").concat(name).concat("'."));
    out.push(String::from_str("Type .help for available commands."));
    out.push(String::from_str("----------------------------------------"));
    proof {
        assert(out.deep_view() =~= banner_text(name@));
    }
    out
}

/// The table listing covers the registry exactly: one line after the header
/// per registered name, in order, and two registered names share a rendered
/// line only when they are the same name — so every table registered during
/// a run shows up in the listing exactly once per registration.
pub proof fn lemma_listing_complete(names: Seq<Seq<char>>)
    ensures
        table_listing(names).len() == names.len() + 1,
        forall|i: int| 0 <= i < names.len() ==> table_listing(names)[i + 1] == listing_line(
            names[i],
        ),
        forall|i: int, j: int|
            0 <= i < names.len() && 0 <= j < names.len() && listing_line(names[i])
                == listing_line(names[j]) ==> names[i] == names[j],
{
    assert forall|i: int, j: int|
        0 <= i < names.len() && 0 <= j < names.len() && listing_line(names[i]) == listing_line(
            names[j],
        ) implies names[i] == names[j] by {
        let a = names[i];
        let b = names[j];
        reveal_strlit("  - ");
        assert(("  - "@ + a).len() == 4 + a.len());
        assert(("  - "@ + b).len() == 4 + b.len());
        assert forall|k: int| 0 <= k < a.len() implies a[k] == b[k] by {
            assert(("  - "@ + a)[k + 4] == a[k]);
            assert(("  - "@ + b)[k + 4] == b[k]);
        }
        assert(a =~= b);
    }
}

} // verus!
