//! From a snapshot to what a status bar shows: a plain line, a coloured
//! line, or a JSON block for a status-line tool.

use crate::json::{keys_of, member_views, object_keys, object_text, object_to_text, texts, Member};
use crate::state::State;
use vstd::prelude::*;
use vstd::string::*;

verus! {

/// The encodings in which a snapshot can be shown.
#[derive(Clone, Copy, PartialEq, Eq, Debug, Structural)]
pub enum OutputFormat {
    I3status,
    Fancy,
    Plain,
}

impl Default for OutputFormat {
    /// Plain text, unless the caller asks for something else.
    fn default() -> (format: OutputFormat)
        ensures
            format == OutputFormat::Plain,
    {
        OutputFormat::Plain
    }
}

impl OutputFormat {
    /// The format to use for a caller's choice: the chosen one, or plain
    /// text where none was chosen.
    pub fn or_default(chosen: Option<OutputFormat>) -> (format: OutputFormat)
        ensures
            format == match chosen {
                Some(f) => f,
                None => OutputFormat::Plain,
            },
    {
        match chosen {
            Some(f) => f,
            None => OutputFormat::Plain,
        }
    }
}

/// The outcomes of an update check that the producer can report.
#[derive(Clone, Copy, PartialEq, Eq, Debug, Structural)]
pub enum StateCode {
    UpToDate,
    AvailableUpdates,
    WarningUpdates,
    CriticalUpdates,
    Unknown,
}

/// Why a snapshot cannot be shown as a JSON block.
#[derive(Clone, Copy, PartialEq, Eq, Debug, Structural)]
pub enum RenderError {
    /// The matched criteria are not a JSON object.
    CriteriaNotAnObject,
    /// A matched criterion's name has fewer than two characters.
    CriterionTooShort,
}

/// The outcome that a stored code names, if it names one.
pub open spec fn code_of(value: Seq<char>) -> Option<StateCode> {
    if value == "OK"@ {
        Some(StateCode::UpToDate)
    } else if value == "AVAILABLE_UPDATES"@ {
        Some(StateCode::AvailableUpdates)
    } else if value == "WARNING_UPDATES"@ {
        Some(StateCode::WarningUpdates)
    } else if value == "CRITICAL_UPDATES"@ {
        Some(StateCode::CriticalUpdates)
    } else if value == "UNKNOWN"@ {
        Some(StateCode::Unknown)
    } else {
        None
    }
}

/// The line shown for a code in plain text. `UNKNOWN` and every code outside
/// the vocabulary share one line.
pub open spec fn plain_text(value: Seq<char>) -> Seq<char> {
    match code_of(value) {
        Some(StateCode::UpToDate) => "Ok"@,
        Some(StateCode::AvailableUpdates) => "Updates available"@,
        Some(StateCode::WarningUpdates) => "Updates recommended"@,
        Some(StateCode::CriticalUpdates) => "Updates required"@,
        _ => "Unknown"@,
    }
}

/// The escape sequence that sets the colour for a code: green, blue, yellow
/// and red for the four findings, magenta for everything else.
pub open spec fn color_escape(value: Seq<char>) -> Seq<char> {
    match code_of(value) {
        Some(StateCode::UpToDate) => "\x1b[32m"@,
        Some(StateCode::AvailableUpdates) => "\x1b[34m"@,
        Some(StateCode::WarningUpdates) => "\x1b[33m"@,
        Some(StateCode::CriticalUpdates) => "\x1b[31m"@,
        _ => "\x1b[35m"@,
    }
}

/// The coloured line: the colour, the plain line, and the reset sequence.
pub open spec fn fancy_text(value: Seq<char>) -> Seq<char> {
    color_escape(value) + plain_text(value) + "\x1b[0m"@
}

/// Whether every criterion name is long enough to be abbreviated.
pub open spec fn abbreviable(keys: Seq<Seq<char>>) -> bool {
    forall|i: int| 0 <= i < keys.len() ==> (#[trigger] keys[i]).len() >= 2
}

/// The first two characters of each criterion name, in the given order,
/// with a comma between neighbours.
pub open spec fn abbreviation(keys: Seq<Seq<char>>) -> Seq<char>
    decreases keys.len(),
{
    if keys.len() == 0 {
        Seq::empty()
    } else if keys.len() == 1 {
        keys[0].subrange(0, 2)
    } else {
        abbreviation(keys.drop_last()) + seq![','] + keys.last().subrange(0, 2)
    }
}

/// The `state` member of the JSON block; absent for a code outside the
/// vocabulary.
pub open spec fn status_state(value: Seq<char>) -> Option<Seq<char>> {
    match code_of(value) {
        Some(StateCode::UpToDate) => Some("Idle"@),
        Some(StateCode::AvailableUpdates) => Some("Idle"@),
        Some(StateCode::WarningUpdates) => Some("Warning"@),
        Some(StateCode::CriticalUpdates) => Some("Critical"@),
        Some(StateCode::Unknown) => Some("Idle"@),
        None => None,
    }
}

/// The `text` member of the JSON block: empty while nothing is urgent, the
/// abbreviated criteria for a warning or a critical finding, an ellipsis for
/// `UNKNOWN`, and absent for a code outside the vocabulary.
pub open spec fn status_text(value: Seq<char>, keys: Seq<Seq<char>>) -> Option<Seq<char>> {
    match code_of(value) {
        Some(StateCode::UpToDate) => Some(""@),
        Some(StateCode::AvailableUpdates) => Some(""@),
        Some(StateCode::WarningUpdates) => Some(abbreviation(keys)),
        Some(StateCode::CriticalUpdates) => Some(abbreviation(keys)),
        Some(StateCode::Unknown) => Some("…"@),
        None => None,
    }
}

/// The three members of the JSON block, in the order in which they are
/// written.
pub open spec fn status_members(value: Seq<char>, keys: Seq<Seq<char>>) -> Seq<
    (Seq<char>, Option<Seq<char>>),
> {
    seq![
        ("icon"@, Some("narchive"@)),
        ("state"@, status_state(value)),
        ("text"@, status_text(value, keys)),
    ]
}

/// The JSON block for a code and the names of the matched criteria.
pub open spec fn i3status_text(value: Seq<char>, keys: Seq<Seq<char>>) -> Seq<char> {
    object_text(status_members(value, keys))
}

/// What `render` owes for a snapshot in a format.
pub open spec fn rendered(state: State, format: OutputFormat) -> Result<Seq<char>, RenderError> {
    match format {
        OutputFormat::Plain => Ok(plain_text(state.state.value@)),
        OutputFormat::Fancy => Ok(fancy_text(state.state.value@)),
        OutputFormat::I3status => match object_keys(state.matched_criteria) {
            None => Err(RenderError::CriteriaNotAnObject),
            Some(keys) => if abbreviable(keys) {
                Ok(i3status_text(state.state.value@, keys))
            } else {
                Err(RenderError::CriterionTooShort)
            },
        },
    }
}

fn is_text(s: &str, literal: &str) -> (same: bool)
    ensures
        same == (s@ == literal@),
{
    let left = String::from_str(s);
    let right = String::from_str(literal);
    left == right
}

/// Reads a stored code.
pub fn classify(value: &str) -> (code: Option<StateCode>)
    ensures
        code == code_of(value@),
{
    if is_text(value, "OK") {
        Some(StateCode::UpToDate)
    } else if is_text(value, "AVAILABLE_UPDATES") {
        Some(StateCode::AvailableUpdates)
    } else if is_text(value, "WARNING_UPDATES") {
        Some(StateCode::WarningUpdates)
    } else if is_text(value, "CRITICAL_UPDATES") {
        Some(StateCode::CriticalUpdates)
    } else if is_text(value, "UNKNOWN") {
        Some(StateCode::Unknown)
    } else {
        None
    }
}

/// The snapshot as one line of plain text.
pub fn render_plain(state: &State) -> (out: String)
    ensures
        out@ == plain_text(state.state.value@),
{
    let line = match classify(state.state.value.as_str()) {
        Some(StateCode::UpToDate) => "Ok",
        Some(StateCode::AvailableUpdates) => "Updates available",
        Some(StateCode::WarningUpdates) => "Updates recommended",
        Some(StateCode::CriticalUpdates) => "Updates required",
        _ => "Unknown",
    };
    String::from_str(line)
}

/// The snapshot as one coloured line for a terminal.
pub fn render_fancy(state: &State) -> (out: String)
    ensures
        out@ == fancy_text(state.state.value@),
{
    let color = match classify(state.state.value.as_str()) {
        Some(StateCode::UpToDate) => "\x1b[32m",
        Some(StateCode::AvailableUpdates) => "\x1b[34m",
        Some(StateCode::WarningUpdates) => "\x1b[33m",
        Some(StateCode::CriticalUpdates) => "\x1b[31m",
        _ => "\x1b[35m",
    };
    let line = render_plain(state);
    String::from_str(color).concat(line.as_str()).concat("\x1b[0m")
}

/// Tells whether every criterion name has at least two characters.
pub fn can_abbreviate(keys: &Vec<String>) -> (yes: bool)
    ensures
        yes == abbreviable(texts(keys@)),
{
    let mut i: usize = 0;
    while i < keys.len()
        invariant
            i <= keys.len(),
            forall|j: int| 0 <= j < i ==> (#[trigger] texts(keys@)[j]).len() >= 2,
        decreases keys.len() - i,
    {
        if keys[i].as_str().unicode_len() < 2 {
            assert(texts(keys@)[i as int].len() < 2);
            return false;
        }
        i += 1;
    }
    true
}

/// Abbreviates the criterion names: two characters of each, joined by commas.
pub fn abbreviate(keys: &Vec<String>) -> (out: String)
    requires
        abbreviable(texts(keys@)),
    ensures
        out@ == abbreviation(texts(keys@)),
{
    let mut out = String::new();
    let mut i: usize = 0;
    while i < keys.len()
        invariant
            i <= keys.len(),
            abbreviable(texts(keys@)),
            out@ == abbreviation(texts(keys@).take(i as int)),
        decreases keys.len() - i,
    {
        let ghost all = texts(keys@);
        assert(all[i as int].len() >= 2);
        assert(all[i as int] == keys@[i as int]@);
        let head = keys[i].as_str().substring_char(0, 2);
        if i > 0 {
            out.append(",");
            proof {
                reveal_strlit(",");
                assert(","@ =~= seq![',']);
            }
        }
        out.append(head);
        proof {
            let next = all.take(i + 1);
            assert(next.drop_last() =~= all.take(i as int));
            assert(next.last() == all[i as int]);
            if i == 0 {
                assert(out@ =~= all[0].subrange(0, 2));
            }
        }
        i += 1;
    }
    assert(texts(keys@).take(i as int) =~= texts(keys@));
    out
}

/// Builds the members of the JSON block from a code and the names of the
/// matched criteria.
pub fn status_block(value: &str, keys: &Vec<String>) -> (members: Vec<Member>)
    requires
        abbreviable(texts(keys@)),
    ensures
        member_views(members@) == status_members(value@, texts(keys@)),
{
    let short = abbreviate(keys);
    let code = classify(value);
    let status = match code {
        Some(StateCode::UpToDate) => Some(String::from_str("Idle")),
        Some(StateCode::AvailableUpdates) => Some(String::from_str("Idle")),
        Some(StateCode::WarningUpdates) => Some(String::from_str("Warning")),
        Some(StateCode::CriticalUpdates) => Some(String::from_str("Critical")),
        Some(StateCode::Unknown) => Some(String::from_str("Idle")),
        None => None,
    };
    let text = match code {
        Some(StateCode::UpToDate) => Some(String::from_str("")),
        Some(StateCode::AvailableUpdates) => Some(String::from_str("")),
        Some(StateCode::WarningUpdates) => Some(short),
        Some(StateCode::CriticalUpdates) => Some(short),
        Some(StateCode::Unknown) => Some(String::from_str("…")),
        None => None,
    };
    let mut members: Vec<Member> = Vec::new();
    members.push(Member { key: String::from_str("icon"), value: Some(String::from_str("narchive")) });
    members.push(Member { key: String::from_str("state"), value: status });
    members.push(Member { key: String::from_str("text"), value: text });
    assert(member_views(members@) =~= status_members(value@, texts(keys@)));
    members
}

/// The JSON block for a code and the names of the matched criteria.
pub fn block_text(value: &str, keys: &Vec<String>) -> (out: String)
    requires
        abbreviable(texts(keys@)),
    ensures
        out@ == i3status_text(value@, texts(keys@)),
{
    let members = status_block(value, keys);
    object_to_text(&members)
}

/// The snapshot as a JSON block for a status-line tool. The matched criteria
/// must be an object whose keys can all be abbreviated;
/// `try_render_i3status` asks for nothing and reports such a snapshot.
pub fn render_i3status(state: &State) -> (out: String)
    requires
        rendered(*state, OutputFormat::I3status) is Ok,
    ensures
        rendered(*state, OutputFormat::I3status) == Ok::<Seq<char>, RenderError>(out@),
{
    match keys_of(&state.matched_criteria) {
        Some(keys) => block_text(state.state.value.as_str(), &keys),
        None => vstd::pervasive::unreached(),
    }
}

/// The snapshot as a JSON block, or the reason why it has none.
pub fn try_render_i3status(state: &State) -> (out: Result<String, RenderError>)
    ensures
        match rendered(*state, OutputFormat::I3status) {
            Ok(text) => out matches Ok(s) && s@ == text,
            Err(e) => out == Err::<String, RenderError>(e),
        },
{
    match keys_of(&state.matched_criteria) {
        None => Err(RenderError::CriteriaNotAnObject),
        Some(keys) => {
            if can_abbreviate(&keys) {
                Ok(render_i3status(state))
            } else {
                Err(RenderError::CriterionTooShort)
            }
        },
    }
}

/// Renders a snapshot in the chosen format. Plain and coloured text exist for
/// every snapshot; the JSON block exists unless the matched criteria are
/// malformed.
pub fn render(state: &State, format: OutputFormat) -> (out: Result<String, RenderError>)
    ensures
        match rendered(*state, format) {
            Ok(text) => out matches Ok(s) && s@ == text,
            Err(e) => out == Err::<String, RenderError>(e),
        },
{
    match format {
        OutputFormat::Plain => Ok(render_plain(state)),
        OutputFormat::Fancy => Ok(render_fancy(state)),
        OutputFormat::I3status => try_render_i3status(state),
    }
}

/// The five codes of the vocabulary are told apart: each names its own
/// outcome.
pub proof fn lemma_codes_are_distinct()
    ensures
        code_of("OK"@) == Some(StateCode::UpToDate),
        code_of("AVAILABLE_UPDATES"@) == Some(StateCode::AvailableUpdates),
        code_of("WARNING_UPDATES"@) == Some(StateCode::WarningUpdates),
        code_of("CRITICAL_UPDATES"@) == Some(StateCode::CriticalUpdates),
        code_of("UNKNOWN"@) == Some(StateCode::Unknown),
{
    reveal_strlit("OK");
    reveal_strlit("AVAILABLE_UPDATES");
    reveal_strlit("WARNING_UPDATES");
    reveal_strlit("CRITICAL_UPDATES");
    reveal_strlit("UNKNOWN");
    assert("AVAILABLE_UPDATES"@.len() != "OK"@.len());
    assert("WARNING_UPDATES"@.len() != "OK"@.len());
    assert("WARNING_UPDATES"@.len() != "AVAILABLE_UPDATES"@.len());
    assert("CRITICAL_UPDATES"@.len() != "OK"@.len());
    assert("CRITICAL_UPDATES"@.len() != "AVAILABLE_UPDATES"@.len());
    assert("CRITICAL_UPDATES"@.len() != "WARNING_UPDATES"@.len());
    assert("UNKNOWN"@.len() != "OK"@.len());
    assert("UNKNOWN"@.len() != "AVAILABLE_UPDATES"@.len());
    assert("UNKNOWN"@.len() != "WARNING_UPDATES"@.len());
    assert("UNKNOWN"@.len() != "CRITICAL_UPDATES"@.len());
}

/// What each code of the vocabulary shows in the three formats: the plain
/// line, the colour of the coloured line, and the `state` and `text` of the
/// JSON block.
pub proof fn lemma_vocabulary(keys: Seq<Seq<char>>)
    ensures
        plain_text("OK"@) == "Ok"@,
        plain_text("AVAILABLE_UPDATES"@) == "Updates available"@,
        plain_text("WARNING_UPDATES"@) == "Updates recommended"@,
        plain_text("CRITICAL_UPDATES"@) == "Updates required"@,
        plain_text("UNKNOWN"@) == "Unknown"@,
        color_escape("OK"@) == "\x1b[32m"@,
        color_escape("AVAILABLE_UPDATES"@) == "\x1b[34m"@,
        color_escape("WARNING_UPDATES"@) == "\x1b[33m"@,
        color_escape("CRITICAL_UPDATES"@) == "\x1b[31m"@,
        color_escape("UNKNOWN"@) == "\x1b[35m"@,
        status_state("OK"@) == Some("Idle"@),
        status_state("AVAILABLE_UPDATES"@) == Some("Idle"@),
        status_state("WARNING_UPDATES"@) == Some("Warning"@),
        status_state("CRITICAL_UPDATES"@) == Some("Critical"@),
        status_state("UNKNOWN"@) == Some("Idle"@),
        status_text("OK"@, keys) == Some(""@),
        status_text("AVAILABLE_UPDATES"@, keys) == Some(""@),
        status_text("WARNING_UPDATES"@, keys) == Some(abbreviation(keys)),
        status_text("CRITICAL_UPDATES"@, keys) == Some(abbreviation(keys)),
        status_text("UNKNOWN"@, keys) == Some("…"@),
{
    lemma_codes_are_distinct();
}

/// A code outside the vocabulary is no error. The JSON block then has
/// neither a `state` nor a `text`, whatever the criteria are; the plain line
/// is `Unknown`, and the coloured line is `Unknown` in magenta.
pub proof fn lemma_unrecognized_code_degrades(value: Seq<char>, keys: Seq<Seq<char>>)
    requires
        code_of(value) is None,
    ensures
        status_state(value) is None,
        status_text(value, keys) is None,
        status_members(value, keys) == seq![
            ("icon"@, Some("narchive"@)),
            ("state"@, None::<Seq<char>>),
            ("text"@, None::<Seq<char>>),
        ],
        plain_text(value) == "Unknown"@,
        fancy_text(value) == "\x1b[35m"@ + "Unknown"@ + "\x1b[0m"@,
{
}

/// The default snapshot is shown as `Unknown` in plain text.
pub proof fn lemma_default_renders_unknown(state: State)
    requires
        state.is_default(),
    ensures
        rendered(state, OutputFormat::Plain) == Ok::<Seq<char>, RenderError>("Unknown"@),
        rendered(state, OutputFormat::I3status) == Ok::<Seq<char>, RenderError>(
            object_text(
                seq![
                    ("icon"@, Some("narchive"@)),
                    ("state"@, Some("Idle"@)),
                    ("text"@, Some("…"@)),
                ],
            ),
        ),
{
    lemma_vocabulary(Seq::empty());
}

/// A criterion name of fewer than two characters is never cut short in
/// silence: the JSON block is refused, whatever the code is.
pub proof fn lemma_short_criterion_is_refused(state: State, keys: Seq<Seq<char>>, i: int)
    requires
        object_keys(state.matched_criteria) == Some(keys),
        0 <= i < keys.len(),
        keys[i].len() < 2,
    ensures
        rendered(state, OutputFormat::I3status) == Err::<Seq<char>, RenderError>(
            RenderError::CriterionTooShort,
        ),
{
}

/// The text formats never fail and read nothing but the code.
pub proof fn lemma_text_formats_depend_on_code_alone(a: State, b: State)
    requires
        a.state.value@ == b.state.value@,
    ensures
        rendered(a, OutputFormat::Plain) is Ok,
        rendered(a, OutputFormat::Fancy) is Ok,
        rendered(a, OutputFormat::Plain) == rendered(b, OutputFormat::Plain),
        rendered(a, OutputFormat::Fancy) == rendered(b, OutputFormat::Fancy),
{
}

/// The abbreviation of two names is the heads of both with a comma between
/// them; that of no names is empty.
pub proof fn lemma_abbreviation_of_two(first: Seq<char>, second: Seq<char>)
    ensures
        abbreviation(Seq::empty()) == Seq::<char>::empty(),
        abbreviation(seq![first]) == first.subrange(0, 2),
        abbreviation(seq![first, second]) == first.subrange(0, 2) + seq![','] + second.subrange(
            0,
            2,
        ),
{
    let both = seq![first, second];
    assert(both.drop_last() =~= seq![first]);
    reveal_with_fuel(abbreviation, 3);
}

/// Every name gives two characters and every gap between names one comma.
pub proof fn lemma_abbreviation_len(keys: Seq<Seq<char>>)
    requires
        abbreviable(keys),
    ensures
        abbreviation(keys).len() == if keys.len() == 0 {
            0
        } else {
            3 * keys.len() - 1
        },
    decreases keys.len(),
{
    if keys.len() >= 2 {
        let front = keys.drop_last();
        assert forall|i: int| 0 <= i < front.len() implies (#[trigger] front[i]).len() >= 2 by {
            assert(front[i] == keys[i]);
        }
        lemma_abbreviation_len(front);
        assert(keys.last() == keys[keys.len() - 1]);
    } else if keys.len() == 1 {
        assert(keys[0].len() >= 2);
    }
}

/// The coloured line for `OK` is `Ok` in green.
pub proof fn lemma_fancy_ok()
    ensures
        fancy_text("OK"@) == "\x1b[32mOk\x1b[0m"@,
{
    lemma_codes_are_distinct();
    reveal_strlit("\x1b[32m");
    reveal_strlit("Ok");
    reveal_strlit("\x1b[0m");
    reveal_strlit("\x1b[32mOk\x1b[0m");
    assert(fancy_text("OK"@) =~= "\x1b[32mOk\x1b[0m"@);
}

} // verus!
