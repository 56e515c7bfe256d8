//! Plan files: an ordered list of actions, one per line.
//!
//! ```text
//! line := verb ":" space+ arg LF
//! verb := "execute" | "upload" | "download"
//! arg  := any characters up to LF
//! ```
//!
//! A space is a blank or a tab. The spaces after the colon belong to no
//! argument, so an argument begins with another character and is never empty.
//! A plan is one line or more; between two lines and after the last one,
//! spaces, carriage returns and empty lines are passed over. Anything else is
//! a fault, and a plan with a fault has no actions at all.

use crate::text::{chars_of, decimal_u64, digits, stands_at, string_of, word_at};
use vstd::prelude::*;

verus! {

/// One action of a plan.
#[derive(Debug, Clone, PartialEq, Eq)]
pub enum ParsedAction {
    /// Run a command on every host.
    Execute { command: String },
    /// Send a local file to every host.
    Upload { source: String },
    /// Fetch a remote file from every host.
    Download { source: String },
}

/// A `ParsedAction` as plain values: texts are sequences of characters.
pub enum ParsedActionView {
    Execute { command: Seq<char> },
    Upload { source: Seq<char> },
    Download { source: Seq<char> },
}

impl DeepView for ParsedAction {
    type V = ParsedActionView;

    open spec fn deep_view(&self) -> ParsedActionView {
        match self {
            ParsedAction::Execute { command } => ParsedActionView::Execute { command: command@ },
            ParsedAction::Upload { source } => ParsedActionView::Upload { source: source@ },
            ParsedAction::Download { source } => ParsedActionView::Download { source: source@ },
        }
    }
}

impl View for ParsedAction {
    type V = ParsedActionView;

    open spec fn view(&self) -> ParsedActionView {
        self.deep_view()
    }
}

/// The verbs of a plan.
#[derive(Debug, Clone, Copy, PartialEq, Eq, Structural)]
pub enum Verb {
    Execute,
    Upload,
    Download,
}

impl Verb {
    /// The verb as a line begins with it, colon included.
    pub open spec fn word(self) -> Seq<char> {
        match self {
            Verb::Execute => "execute:"@,
            Verb::Upload => "upload:"@,
            Verb::Download => "download:"@,
        }
    }

    /// The action of this verb on an argument.
    pub open spec fn action(self, arg: Seq<char>) -> ParsedActionView {
        match self {
            Verb::Execute => ParsedActionView::Execute { command: arg },
            Verb::Upload => ParsedActionView::Upload { source: arg },
            Verb::Download => ParsedActionView::Download { source: arg },
        }
    }

    fn letters(self) -> (word: Vec<char>)
        ensures
            word@ == self.word(),
    {
        match self {
            Verb::Execute => chars_of("execute:"),
            Verb::Upload => chars_of("upload:"),
            Verb::Download => chars_of("download:"),
        }
    }

    fn act(self, arg: String) -> (action: ParsedAction)
        ensures
            action@ == self.action(arg@),
    {
        match self {
            Verb::Execute => ParsedAction::Execute { command: arg },
            Verb::Upload => ParsedAction::Upload { source: arg },
            Verb::Download => ParsedAction::Download { source: arg },
        }
    }
}

/// What can be wrong with a line of a plan.
#[derive(Debug, Clone, Copy, PartialEq, Eq, Structural)]
pub enum PlanFault {
    /// The line begins with none of the verbs.
    UnknownVerb,
    /// No space follows the colon.
    MissingSpace,
    /// Nothing follows the spaces on the line.
    MissingArgument,
    /// The text ends before the line does.
    MissingLineEnd,
}

impl PlanFault {
    /// The fault in words.
    pub open spec fn text(self) -> Seq<char> {
        match self {
            PlanFault::UnknownVerb => "expected execute:, upload: or download:"@,
            PlanFault::MissingSpace => "expected a space after the colon"@,
            PlanFault::MissingArgument => "expected an argument"@,
            PlanFault::MissingLineEnd => "expected the end of the line"@,
        }
    }
}

/// A plan that cannot be read: the fault, and how many characters precede it.
#[derive(Debug, Clone, Copy, PartialEq, Eq, Structural)]
pub struct PlanParseError {
    pub offset: usize,
    pub fault: PlanFault,
}

impl PlanParseError {
    /// The error in words: the fault, then where it is.
    pub open spec fn text(self) -> Seq<char> {
        self.fault.text() + " at character "@ + digits(self.offset as nat)
    }

    /// The line shown to the user.
    pub fn message(&self) -> (line: String)
        ensures
            line@ == self.text(),
    {
        let mut out = match self.fault {
            PlanFault::UnknownVerb => "expected execute:, upload: or download:".to_owned(),
            PlanFault::MissingSpace => "expected a space after the colon".to_owned(),
            PlanFault::MissingArgument => "expected an argument".to_owned(),
            PlanFault::MissingLineEnd => "expected the end of the line".to_owned(),
        };
        out.append(" at character ");
        let place = decimal_u64(self.offset as u64);
        out.append(place.as_str());
        out
    }
}

/// The kinds of character that are passed over in a run.
#[derive(Debug, Clone, Copy, PartialEq, Eq, Structural)]
pub enum Run {
    /// Blanks and tabs.
    Spaces,
    /// Blanks, tabs, carriage returns and line feeds.
    Blanks,
    /// Everything but a line feed.
    Line,
}

impl Run {
    /// Whether a character belongs to the run.
    pub open spec fn holds(self, c: char) -> bool {
        match self {
            Run::Spaces => c == ' ' || c == '\t',
            Run::Blanks => c == ' ' || c == '\t' || c == '\r' || c == '\n',
            Run::Line => c != '\n',
        }
    }

    fn has(self, c: char) -> (yes: bool)
        ensures
            yes == self.holds(c),
    {
        match self {
            Run::Spaces => c == ' ' || c == '\t',
            Run::Blanks => c == ' ' || c == '\t' || c == '\r' || c == '\n',
            Run::Line => c != '\n',
        }
    }
}

/// Where the run that begins at `at` ends: the first position from `at` on
/// whose character does not belong to it, or the end of the text.
pub open spec fn run_end(s: Seq<char>, at: int, run: Run) -> int
    decreases s.len() - at,
{
    if 0 <= at < s.len() && run.holds(s[at]) {
        run_end(s, at + 1, run)
    } else {
        at
    }
}

/// A run ends at or after its beginning, within the text, and not on one of
/// its own characters.
pub proof fn lemma_run_end(s: Seq<char>, at: int, run: Run)
    requires
        0 <= at <= s.len(),
    ensures
        at <= run_end(s, at, run) <= s.len(),
        run_end(s, at, run) < s.len() ==> !run.holds(s[run_end(s, at, run)]),
        forall|i: int| at <= i < run_end(s, at, run) ==> run.holds(#[trigger] s[i]),
    decreases s.len() - at,
{
    if at < s.len() && run.holds(s[at]) {
        lemma_run_end(s, at + 1, run);
    }
}

/// The verb that the text holds at `at`, if it holds one.
pub open spec fn verb_at(s: Seq<char>, at: int) -> Option<Verb> {
    if stands_at(s, at, Verb::Execute.word()) {
        Some(Verb::Execute)
    } else if stands_at(s, at, Verb::Upload.word()) {
        Some(Verb::Upload)
    } else if stands_at(s, at, Verb::Download.word()) {
        Some(Verb::Download)
    } else {
        None
    }
}

/// The entry of `verb` at `at`: the action, and where the argument ends. The
/// line feed that ends the line is not part of the entry.
pub open spec fn entry_with(s: Seq<char>, at: int, verb: Verb) -> Result<
    (ParsedActionView, int),
    PlanFault,
> {
    let colon = at + verb.word().len();
    let arg = run_end(s, colon, Run::Spaces);
    let end = run_end(s, arg, Run::Line);
    if !stands_at(s, at, verb.word()) {
        Err(PlanFault::UnknownVerb)
    } else if arg == colon {
        Err(PlanFault::MissingSpace)
    } else if end == arg {
        Err(PlanFault::MissingArgument)
    } else {
        Ok((verb.action(s.subrange(arg, end)), end))
    }
}

/// The entry at `at`, of whichever verb stands there.
pub open spec fn entry_at(s: Seq<char>, at: int) -> Result<(ParsedActionView, int), PlanFault> {
    match verb_at(s, at) {
        Some(verb) => entry_with(s, at, verb),
        None => Err(PlanFault::UnknownVerb),
    }
}

/// The actions of the plan that begins at `at`, or its first fault and where
/// it is.
pub open spec fn plan_from(s: Seq<char>, at: int) -> Result<
    Seq<ParsedActionView>,
    (int, PlanFault),
>
    decreases s.len() - at,
    via plan_from_decreases
{
    match entry_at(s, at) {
        Err(fault) => Err((at, fault)),
        Ok((action, end)) => if end >= s.len() {
            Err((end, PlanFault::MissingLineEnd))
        } else {
            let next = run_end(s, end + 1, Run::Blanks);
            if next >= s.len() {
                Ok(seq![action])
            } else {
                match plan_from(s, next) {
                    Ok(rest) => Ok(seq![action] + rest),
                    Err(fault) => Err(fault),
                }
            }
        },
    }
}

#[via_fn]
proof fn plan_from_decreases(s: Seq<char>, at: int) {
    if let Ok((action, end)) = entry_at(s, at) {
        if end < s.len() {
            lemma_entry_bounds(s, at);
            lemma_run_end(s, end + 1, Run::Blanks);
        }
    }
}

/// An entry ends after it begins, and within the text.
pub proof fn lemma_entry_bounds(s: Seq<char>, at: int)
    requires
        entry_at(s, at) is Ok,
    ensures
        0 <= at < entry_at(s, at)->Ok_0.1 <= s.len(),
{
    let verb = verb_at(s, at)->0;
    let colon = at + verb.word().len();
    lemma_run_end(s, colon, Run::Spaces);
    lemma_run_end(s, run_end(s, colon, Run::Spaces), Run::Line);
}

/// The actions of a whole plan, or its first fault and where it is.
pub open spec fn plan_of(s: Seq<char>) -> Result<Seq<ParsedActionView>, (int, PlanFault)> {
    plan_from(s, 0)
}

/// The actions read so far, then what the rest of the plan gives.
pub open spec fn followed_by(done: Seq<ParsedActionView>, rest: Result<
    Seq<ParsedActionView>,
    (int, PlanFault),
>) -> Result<Seq<ParsedActionView>, (int, PlanFault)> {
    match rest {
        Ok(actions) => Ok(done + actions),
        Err(fault) => Err(fault),
    }
}

/// Finds where the run that begins at `at` ends.
fn pass(chars: &Vec<char>, at: usize, run: Run) -> (end: usize)
    requires
        at <= chars.len(),
    ensures
        end == run_end(chars@, at as int, run),
        at <= end <= chars.len(),
{
    let mut i: usize = at;
    while i < chars.len() && run.has(chars[i])
        invariant
            at <= i <= chars.len(),
            run_end(chars@, at as int, run) == run_end(chars@, i as int, run),
        decreases chars.len() - i,
    {
        i += 1;
    }
    i
}

/// Finds the verb that the text holds at `at`.
fn find_verb(chars: &Vec<char>, at: usize) -> (verb: Option<Verb>)
    ensures
        verb == verb_at(chars@, at as int),
{
    if word_at(chars, at, &Verb::Execute.letters()) {
        Some(Verb::Execute)
    } else if word_at(chars, at, &Verb::Upload.letters()) {
        Some(Verb::Upload)
    } else if word_at(chars, at, &Verb::Download.letters()) {
        Some(Verb::Download)
    } else {
        None
    }
}

/// Reads the entry of `verb` at `at`.
fn read_entry(chars: &Vec<char>, at: usize, verb: Verb) -> (entry: Result<
    (ParsedAction, usize),
    PlanFault,
>)
    ensures
        match entry {
            Ok((action, end)) => entry_with(chars@, at as int, verb) == Ok::<
                (ParsedActionView, int),
                PlanFault,
            >((action@, end as int)) && at < end <= chars.len(),
            Err(fault) => entry_with(chars@, at as int, verb) == Err::<
                (ParsedActionView, int),
                PlanFault,
            >(fault),
        },
{
    let word = verb.letters();
    if !word_at(chars, at, &word) {
        return Err(PlanFault::UnknownVerb);
    }
    let total = chars.len();
    assert(at + word.len() <= total);
    let colon = at + word.len();
    let arg = pass(chars, colon, Run::Spaces);
    let end = pass(chars, arg, Run::Line);
    if arg == colon {
        Err(PlanFault::MissingSpace)
    } else if end == arg {
        Err(PlanFault::MissingArgument)
    } else {
        Ok((verb.act(string_of(chars, arg, end)), end))
    }
}

/// Moves the input on by `n` characters.
fn advance(input: &mut &str, n: usize)
    requires
        n <= old(input)@.len(),
    ensures
        final(input)@ == old(input)@.skip(n as int),
{
    let whole: &str = *input;
    let total = whole.unicode_len();
    *input = whole.substring_char(n, total);
    assert(old(input)@.skip(n as int) =~= old(input)@.subrange(n as int, total as int));
}

/// Reads the entry of `verb` at the beginning of the input and moves the
/// input past it. The input stays as it is where there is no such entry.
fn parse_entry(input: &mut &str, verb: Verb) -> (entry: Result<ParsedAction, PlanParseError>)
    ensures
        match entry {
            Ok(action) => {
                &&& entry_with(old(input)@, 0, verb) matches Ok((found, end))
                &&& action@ == found
                &&& final(input)@ == old(input)@.skip(end)
            },
            Err(error) => {
                &&& entry_with(old(input)@, 0, verb) == Err::<(ParsedActionView, int), PlanFault>(
                    error.fault,
                )
                &&& error.offset == 0
                &&& final(input)@ == old(input)@
            },
        },
{
    let chars = chars_of(*input);
    match read_entry(&chars, 0, verb) {
        Ok((action, end)) => {
            advance(input, end);
            Ok(action)
        },
        Err(fault) => Err(PlanParseError { offset: 0, fault }),
    }
}

/// Reads `execute: <command>` at the beginning of the input and moves the
/// input past the command. The line feed stays in the input.
pub fn parse_execute(input: &mut &str) -> (entry: Result<ParsedAction, PlanParseError>)
    ensures
        match entry {
            Ok(action) => {
                &&& entry_with(old(input)@, 0, Verb::Execute) matches Ok((found, end))
                &&& action@ == found
                &&& final(input)@ == old(input)@.skip(end)
            },
            Err(error) => {
                &&& entry_with(old(input)@, 0, Verb::Execute) == Err::<
                    (ParsedActionView, int),
                    PlanFault,
                >(error.fault)
                &&& error.offset == 0
                &&& final(input)@ == old(input)@
            },
        },
{
    parse_entry(input, Verb::Execute)
}

/// Reads `upload: <source>` at the beginning of the input and moves the input
/// past the source. The line feed stays in the input.
pub fn parse_upload(input: &mut &str) -> (entry: Result<ParsedAction, PlanParseError>)
    ensures
        match entry {
            Ok(action) => {
                &&& entry_with(old(input)@, 0, Verb::Upload) matches Ok((found, end))
                &&& action@ == found
                &&& final(input)@ == old(input)@.skip(end)
            },
            Err(error) => {
                &&& entry_with(old(input)@, 0, Verb::Upload) == Err::<
                    (ParsedActionView, int),
                    PlanFault,
                >(error.fault)
                &&& error.offset == 0
                &&& final(input)@ == old(input)@
            },
        },
{
    parse_entry(input, Verb::Upload)
}

/// Reads `download: <source>` at the beginning of the input and moves the
/// input past the source. The line feed stays in the input.
pub fn parse_download(input: &mut &str) -> (entry: Result<ParsedAction, PlanParseError>)
    ensures
        match entry {
            Ok(action) => {
                &&& entry_with(old(input)@, 0, Verb::Download) matches Ok((found, end))
                &&& action@ == found
                &&& final(input)@ == old(input)@.skip(end)
            },
            Err(error) => {
                &&& entry_with(old(input)@, 0, Verb::Download) == Err::<
                    (ParsedActionView, int),
                    PlanFault,
                >(error.fault)
                &&& error.offset == 0
                &&& final(input)@ == old(input)@
            },
        },
{
    parse_entry(input, Verb::Download)
}

/// Reads the entry at the beginning of the input, of whichever verb stands
/// there, and moves the input past its argument.
pub fn parse_command(input: &mut &str) -> (entry: Result<ParsedAction, PlanParseError>)
    ensures
        match entry {
            Ok(action) => {
                &&& entry_at(old(input)@, 0) matches Ok((found, end))
                &&& action@ == found
                &&& final(input)@ == old(input)@.skip(end)
            },
            Err(error) => {
                &&& entry_at(old(input)@, 0) == Err::<(ParsedActionView, int), PlanFault>(
                    error.fault,
                )
                &&& error.offset == 0
                &&& final(input)@ == old(input)@
            },
        },
{
    let chars = chars_of(*input);
    match find_verb(&chars, 0) {
        Some(verb) => match read_entry(&chars, 0, verb) {
            Ok((action, end)) => {
                advance(input, end);
                Ok(action)
            },
            Err(fault) => Err(PlanParseError { offset: 0, fault }),
        },
        None => Err(PlanParseError { offset: 0, fault: PlanFault::UnknownVerb }),
    }
}

/// Reads a whole plan: its actions in the order of its lines, and the input
/// is used up. Where the plan has a fault, the first one is returned with its
/// place, and the input stays as it is.
pub fn parse_commands(input: &mut &str) -> (plan: Result<Vec<ParsedAction>, PlanParseError>)
    ensures
        match plan {
            Ok(actions) => {
                &&& plan_of(old(input)@) == Ok::<Seq<ParsedActionView>, (int, PlanFault)>(
                    actions.deep_view(),
                )
                &&& actions.len() > 0
                &&& final(input)@.len() == 0
            },
            Err(error) => {
                &&& plan_of(old(input)@) == Err::<Seq<ParsedActionView>, (int, PlanFault)>(
                    (error.offset as int, error.fault),
                )
                &&& final(input)@ == old(input)@
            },
        },
{
    let chars = chars_of(*input);
    let ghost s = chars@;
    let mut actions: Vec<ParsedAction> = Vec::new();
    let mut at: usize = 0;
    proof {
        assert(Seq::<ParsedActionView>::empty() + plan_from(s, 0)->Ok_0 =~= plan_from(s, 0)->Ok_0);
    }
    loop
        invariant
            s == chars@,
            s == input@,
            input@ == old(input)@,
            at <= chars.len(),
            plan_of(s) == followed_by(actions.deep_view(), plan_from(s, at as int)),
            actions.len() > 0 ==> at < chars.len(),
        decreases chars.len() - at,
    {
        let entry = match find_verb(&chars, at) {
            Some(verb) => read_entry(&chars, at, verb),
            None => Err(PlanFault::UnknownVerb),
        };
        match entry {
            Err(fault) => {
                return Err(PlanParseError { offset: at, fault });
            },
            Ok((action, end)) => {
                if end >= chars.len() {
                    return Err(PlanParseError { offset: end, fault: PlanFault::MissingLineEnd });
                }
                let next = pass(&chars, end + 1, Run::Blanks);
                let ghost before = actions.deep_view();
                actions.push(action);
                proof {
                    assert(actions.deep_view() =~= before.push(action@));
                    match plan_from(s, next as int) {
                        Ok(rest) => {
                            assert(before + (seq![action@] + rest) =~= before.push(action@) + rest);
                        },
                        Err(_) => {},
                    }
                    assert(before + seq![action@] =~= before.push(action@));
                }
                if next >= chars.len() {
                    advance(input, chars.len());
                    return Ok(actions);
                }
                at = next;
            },
        }
    }
}

/// Whether a text can be the argument of a line: it is not empty, it does
/// not begin with a space, and it holds no line feed.
pub open spec fn is_argument(arg: Seq<char>) -> bool {
    &&& arg.len() > 0
    &&& !Run::Spaces.holds(arg[0])
    &&& forall|i: int| 0 <= i < arg.len() ==> #[trigger] arg[i] != '\n'
}

impl ParsedActionView {
    /// The verb of the action.
    pub open spec fn verb(self) -> Verb {
        match self {
            ParsedActionView::Execute { .. } => Verb::Execute,
            ParsedActionView::Upload { .. } => Verb::Upload,
            ParsedActionView::Download { .. } => Verb::Download,
        }
    }

    /// The argument of the action.
    pub open spec fn argument(self) -> Seq<char> {
        match self {
            ParsedActionView::Execute { command } => command,
            ParsedActionView::Upload { source } => source,
            ParsedActionView::Download { source } => source,
        }
    }

    /// The line that writes the action: the verb, a blank, the argument and
    /// a line feed.
    pub open spec fn line(self) -> Seq<char> {
        self.verb().word() + seq![' '] + self.argument() + seq!['\n']
    }
}

/// The plan that writes some actions: their lines, one after the other.
pub open spec fn written(actions: Seq<ParsedActionView>) -> Seq<char>
    decreases actions.len(),
{
    if actions.len() == 0 {
        Seq::empty()
    } else {
        actions[0].line() + written(actions.drop_first())
    }
}

/// A run ends where its characters end.
pub proof fn lemma_run_ends_at(s: Seq<char>, at: int, run: Run, end: int)
    requires
        0 <= at <= end <= s.len(),
        forall|i: int| at <= i < end ==> run.holds(#[trigger] s[i]),
        end < s.len() ==> !run.holds(s[end]),
    ensures
        run_end(s, at, run) == end,
    decreases end - at,
{
    if at < end {
        lemma_run_ends_at(s, at + 1, run, end);
    }
}

/// The words of the verbs: none is empty, none holds a space or a line
/// feed, and each begins with a letter of its own.
pub proof fn lemma_words(verb: Verb)
    ensures
        verb.word().len() > 0,
        verb.word()[0] == (match verb {
            Verb::Execute => 'e',
            Verb::Upload => 'u',
            Verb::Download => 'd',
        }),
{
    reveal_strlit("execute:");
    reveal_strlit("upload:");
    reveal_strlit("download:");
}

/// A text that begins with the word of a verb holds that verb at its
/// beginning, and no other.
pub proof fn lemma_verb_at_the_beginning(verb: Verb, rest: Seq<char>)
    ensures
        verb_at(verb.word() + rest, 0) == Some(verb),
{
    let s = verb.word() + rest;
    lemma_words(Verb::Execute);
    lemma_words(Verb::Upload);
    lemma_words(Verb::Download);
    assert(s.subrange(0, verb.word().len() as int) =~= verb.word());
    assert(s[0] == verb.word()[0]);
    assert forall|other: Verb| other != verb implies !stands_at(s, 0, other.word()) by {
        lemma_words(other);
        if stands_at(s, 0, other.word()) {
            assert(s.subrange(0, other.word().len() as int)[0] == other.word()[0]);
        }
    }
    assert(!stands_at(s, 0, Verb::Execute.word()) || verb == Verb::Execute);
    assert(!stands_at(s, 0, Verb::Upload.word()) || verb == Verb::Upload);
    assert(!stands_at(s, 0, Verb::Download.word()) || verb == Verb::Download);
}

/// The line of an action is read as that action, whatever follows it, and
/// the entry ends at the line feed.
pub proof fn lemma_line_is_read(action: ParsedActionView, rest: Seq<char>)
    requires
        is_argument(action.argument()),
    ensures
        entry_at(action.line() + rest, 0) == Ok::<(ParsedActionView, int), PlanFault>(
            (action, action.line().len() - 1),
        ),
        (action.line() + rest)[action.line().len() - 1] == '\n',
{
    let word = action.verb().word();
    let arg = action.argument();
    let line = action.line();
    let s = line + rest;
    let colon = word.len() as int;
    lemma_words(action.verb());
    assert(s =~= word + (seq![' '] + arg + seq!['\n'] + rest));
    lemma_verb_at_the_beginning(action.verb(), seq![' '] + arg + seq!['\n'] + rest);
    assert(s.subrange(0, colon) =~= word);
    assert(s[colon] == ' ');
    assert(s[colon + 1] == arg[0]);
    lemma_run_ends_at(s, colon, Run::Spaces, colon + 1);
    let end = colon + 1 + arg.len();
    assert forall|i: int| colon + 1 <= i < end implies Run::Line.holds(#[trigger] s[i]) by {
        assert(s[i] == arg[i - colon - 1]);
    }
    assert(s[end] == '\n');
    lemma_run_ends_at(s, colon + 1, Run::Line, end);
    assert(s.subrange(colon + 1, end) =~= arg);
}

/// What stands in a text stands in it where the text follows another.
pub proof fn lemma_entry_shifts(before: Seq<char>, s: Seq<char>, at: int)
    requires
        0 <= at <= s.len(),
    ensures
        match entry_at(s, at) {
            Ok((action, end)) => entry_at(before + s, before.len() + at) == Ok::<
                (ParsedActionView, int),
                PlanFault,
            >((action, before.len() + end)),
            Err(fault) => entry_at(before + s, before.len() + at) == Err::<
                (ParsedActionView, int),
                PlanFault,
            >(fault),
        },
{
    let all = before + s;
    let shift = before.len() as int;
    assert forall|verb: Verb| stands_at(all, shift + at, verb.word()) == stands_at(
        s,
        at,
        verb.word(),
    ) by {
        let n = verb.word().len() as int;
        if at + n <= s.len() {
            assert(all.subrange(shift + at, shift + at + n) =~= s.subrange(at, at + n));
        }
    }
    assert(verb_at(all, shift + at) == verb_at(s, at));
    if let Some(verb) = verb_at(s, at) {
        let colon = at + verb.word().len();
        lemma_run_shifts(before, s, colon, Run::Spaces);
        lemma_run_end(s, colon, Run::Spaces);
        let arg = run_end(s, colon, Run::Spaces);
        lemma_run_shifts(before, s, arg, Run::Line);
        lemma_run_end(s, arg, Run::Line);
        let end = run_end(s, arg, Run::Line);
        assert(all.subrange(shift + arg, shift + end) =~= s.subrange(arg, end));
    }
}

/// A run in a text ends at the same place where the text follows another.
pub proof fn lemma_run_shifts(before: Seq<char>, s: Seq<char>, at: int, run: Run)
    requires
        0 <= at <= s.len(),
    ensures
        run_end(before + s, before.len() + at, run) == before.len() + run_end(s, at, run),
    decreases s.len() - at,
{
    if at < s.len() {
        assert((before + s)[before.len() + at] == s[at]);
        if run.holds(s[at]) {
            lemma_run_shifts(before, s, at + 1, run);
        }
    }
}

/// A plan gives the same actions where its text follows another, and its
/// faults are as much further on as the other text is long.
pub proof fn lemma_plan_shifts(before: Seq<char>, s: Seq<char>, at: int)
    requires
        0 <= at <= s.len(),
    ensures
        match plan_from(s, at) {
            Ok(actions) => plan_from(before + s, before.len() + at) == Ok::<
                Seq<ParsedActionView>,
                (int, PlanFault),
            >(actions),
            Err((place, fault)) => plan_from(before + s, before.len() + at) == Err::<
                Seq<ParsedActionView>,
                (int, PlanFault),
            >((before.len() + place, fault)),
        },
    decreases s.len() - at,
{
    lemma_entry_shifts(before, s, at);
    if let Ok((action, end)) = entry_at(s, at) {
        lemma_entry_bounds(s, at);
        if end < s.len() {
            lemma_run_shifts(before, s, end + 1, Run::Blanks);
            lemma_run_end(s, end + 1, Run::Blanks);
            let next = run_end(s, end + 1, Run::Blanks);
            if next < s.len() {
                lemma_plan_shifts(before, s, next);
            }
        }
    }
}

/// A written plan that holds an action begins with the first letter of a
/// verb, which is no blank.
pub proof fn lemma_written_begins_with_a_letter(actions: Seq<ParsedActionView>)
    requires
        actions.len() > 0,
    ensures
        written(actions).len() > 0,
        !Run::Blanks.holds(written(actions)[0]),
{
    let word = actions[0].verb().word();
    let line = actions[0].line();
    lemma_words(actions[0].verb());
    assert(line[0] == word[0]);
    assert(written(actions)[0] == line[0]);
}

/// A plan whose first entry ends at a line feed, with the next entry right
/// after it, gives the action of that entry and then the actions of the
/// plan that begins there.
pub proof fn lemma_plan_goes_on(s: Seq<char>, first: ParsedActionView, end: int)
    requires
        entry_at(s, 0) == Ok::<(ParsedActionView, int), PlanFault>((first, end)),
        0 <= end < s.len(),
        end + 1 < s.len() ==> !Run::Blanks.holds(s[end + 1]),
    ensures
        plan_from(s, 0) == (if end + 1 < s.len() {
            followed_by(seq![first], plan_from(s, end + 1))
        } else {
            Ok(seq![first])
        }),
{
    lemma_run_ends_at(s, end + 1, Run::Blanks, end + 1);
}

/// What is written can be read. The plan that writes some actions, at least
/// one, each with an argument that a line can hold, is read as those
/// actions, in their order.
pub proof fn lemma_written_plan_is_read(actions: Seq<ParsedActionView>)
    requires
        actions.len() > 0,
        forall|i: int| 0 <= i < actions.len() ==> is_argument((#[trigger] actions[i]).argument()),
    ensures
        plan_of(written(actions)) == Ok::<Seq<ParsedActionView>, (int, PlanFault)>(actions),
    decreases actions.len(),
{
    let first = actions[0];
    let others = actions.drop_first();
    let line = first.line();
    let rest = written(others);
    let s = line + rest;
    let end = line.len() - 1;
    assert(written(actions) == s);
    lemma_line_is_read(first, rest);
    if others.len() == 0 {
        assert(s.len() == end + 1);
        lemma_plan_goes_on(s, first, end);
        assert(seq![first] =~= actions);
    } else {
        assert forall|i: int| 0 <= i < others.len() implies is_argument(
            (#[trigger] others[i]).argument(),
        ) by {
            assert(others[i] == actions[i + 1]);
        }
        lemma_written_plan_is_read(others);
        lemma_written_begins_with_a_letter(others);
        assert(s[end + 1] == rest[0]);
        lemma_plan_goes_on(s, first, end);
        lemma_plan_shifts(line, rest, 0);
        assert(plan_from(s, end + 1) == Ok::<Seq<ParsedActionView>, (int, PlanFault)>(others));
        assert(seq![first] + others =~= actions);
    }
}

} // verus!
