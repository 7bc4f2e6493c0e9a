//! The interactive shell without its terminal: what is written, in which
//! colour, and what is made of a line that was read.

use vstd::prelude::*;

verus! {

/// What an agent message is about.
#[derive(Clone, Copy, Debug, PartialEq, Eq, Structural)]
pub enum PrintCommand {
    AICall,
    UnitTest,
    Issue,
}

/// The foreground colours the shell writes in.
#[derive(Clone, Copy, Debug, PartialEq, Eq, Structural)]
pub enum Color {
    Blue,
    Green,
    Cyan,
    Magenta,
    Red,
}

/// A piece of text to write in one colour.
#[derive(Debug)]
pub struct Span {
    pub color: Color,
    pub text: String,
}

/// A [`Span`] as mathematical text.
pub struct SpanView {
    pub color: Color,
    pub text: Seq<char>,
}

impl View for Span {
    type V = SpanView;

    open spec fn view(&self) -> SpanView {
        SpanView { color: self.color, text: self.text@ }
    }
}

impl DeepView for Span {
    type V = SpanView;

    open spec fn deep_view(&self) -> SpanView {
        self@
    }
}

/// The colour in which a statement of the given kind is written.
pub open spec fn statement_color(command: PrintCommand) -> Color {
    match command {
        PrintCommand::AICall => Color::Cyan,
        PrintCommand::UnitTest => Color::Magenta,
        PrintCommand::Issue => Color::Red,
    }
}

/// An agent message: the agent's position in green, then the statement in
/// the colour of its kind, ending the line.
pub open spec fn agent_message_views(
    command: PrintCommand,
    position: Seq<char>,
    statement: Seq<char>,
) -> Seq<SpanView> {
    seq![
        SpanView { color: Color::Green, text: "Agent: "@ + position + ": "@ },
        SpanView { color: statement_color(command), text: statement + "\n"@ },
    ]
}

impl PrintCommand {
    /// The colour in which a statement of this kind is written.
    pub fn color(&self) -> (color: Color)
        ensures
            color == statement_color(*self),
    {
        match self {
            PrintCommand::AICall => Color::Cyan,
            PrintCommand::UnitTest => Color::Magenta,
            PrintCommand::Issue => Color::Red,
        }
    }

    /// Lays out an agent message as the coloured pieces to write, in order.
    pub fn agent_message(&self, agent_pos: &str, agent_statement: &str) -> (spans: Vec<Span>)
        ensures
            spans.deep_view() == agent_message_views(*self, agent_pos@, agent_statement@),
    {
        let mut head = String::from_str("Agent: ");
        head.append(agent_pos);
        head.append(": ");
        let mut line = String::from_str(agent_statement);
        line.append("\n");
        let mut spans: Vec<Span> = Vec::new();
        spans.push(Span { color: Color::Green, text: head });
        spans.push(Span { color: self.color(), text: line });
        assert(spans.deep_view() =~= agent_message_views(*self, agent_pos@, agent_statement@));
        spans
    }
}

/// The question put to the user: on a line of its own, in blue.
pub open spec fn question_view(question: Seq<char>) -> SpanView {
    SpanView { color: Color::Blue, text: "\n"@ + question + "\n"@ }
}

/// Lays out the question that opens a prompt.
pub fn question_span(question: &str) -> (span: Span)
    ensures
        span@ == question_view(question@),
{
    let mut text = String::from_str("\n");
    text.append(question);
    text.append("\n");
    Span { color: Color::Blue, text }
}

/// The characters that count as white space: the Unicode property
/// `White_Space`, which takes in the line breaks.
pub open spec fn is_whitespace(c: char) -> bool {
    let v = c as u32;
    ||| 0x09 <= v <= 0x0D
    ||| v == 0x20
    ||| v == 0x85
    ||| v == 0xA0
    ||| v == 0x1680
    ||| 0x2000 <= v <= 0x200A
    ||| v == 0x2028
    ||| v == 0x2029
    ||| v == 0x202F
    ||| v == 0x205F
    ||| v == 0x3000
}

/// How many white-space characters `s` begins with.
pub open spec fn leading_whitespace(s: Seq<char>) -> nat
    decreases s.len(),
{
    if s.len() > 0 && is_whitespace(s[0]) {
        1 + leading_whitespace(s.drop_first())
    } else {
        0
    }
}

/// How many white-space characters `s` ends with.
pub open spec fn trailing_whitespace(s: Seq<char>) -> nat
    decreases s.len(),
{
    if s.len() > 0 && is_whitespace(s.last()) {
        1 + trailing_whitespace(s.drop_last())
    } else {
        0
    }
}

/// `s` without the white space it begins and ends with.
pub open spec fn trimmed(s: Seq<char>) -> Seq<char> {
    let rest = s.skip(leading_whitespace(s) as int);
    rest.take(rest.len() - trailing_whitespace(rest))
}

/// A run of white space at the front that stops at `k` is the whole
/// leading white space.
pub proof fn lemma_leading_whitespace_is(s: Seq<char>, k: int)
    requires
        0 <= k <= s.len(),
        forall|i: int| 0 <= i < k ==> is_whitespace(#[trigger] s[i]),
        k < s.len() ==> !is_whitespace(s[k]),
    ensures
        leading_whitespace(s) == k,
    decreases k,
{
    if k > 0 {
        let rest = s.drop_first();
        assert forall|i: int| 0 <= i < k - 1 implies is_whitespace(#[trigger] rest[i]) by {
            assert(rest[i] == s[i + 1]);
        }
        if k - 1 < rest.len() {
            assert(rest[k - 1] == s[k]);
        }
        lemma_leading_whitespace_is(rest, k - 1);
    }
}

/// A run of white space at the back that starts at `k` is the whole
/// trailing white space.
pub proof fn lemma_trailing_whitespace_is(s: Seq<char>, k: int)
    requires
        0 <= k <= s.len(),
        forall|i: int| k <= i < s.len() ==> is_whitespace(#[trigger] s[i]),
        k > 0 ==> !is_whitespace(s[k - 1]),
    ensures
        trailing_whitespace(s) == s.len() - k,
    decreases s.len() - k,
{
    if k < s.len() {
        let rest = s.drop_last();
        assert forall|i: int| k <= i < rest.len() implies is_whitespace(#[trigger] rest[i]) by {
            assert(rest[i] == s[i]);
        }
        if k > 0 {
            assert(rest[k - 1] == s[k - 1]);
        }
        assert(is_whitespace(s[s.len() - 1]));
        lemma_trailing_whitespace_is(rest, k);
    }
}

/// Tells whether `c` is white space.
pub fn is_whitespace_char(c: char) -> (white: bool)
    ensures
        white == is_whitespace(c),
{
    let v: u32 = c as u32;
    (0x09 <= v && v <= 0x0D) || v == 0x20 || v == 0x85 || v == 0xA0 || v == 0x1680 || (0x2000 <= v
        && v <= 0x200A) || v == 0x2028 || v == 0x2029 || v == 0x202F || v == 0x205F || v == 0x3000
}

/// Strips the white space that `s` begins and ends with and keeps what
/// lies between as it is.
pub fn trim(s: &str) -> (t: &str)
    ensures
        t@ == trimmed(s@),
{
    let n = s.unicode_len();
    let mut start: usize = 0;
    let mut scanning = true;
    while scanning && start < n
        invariant
            n == s@.len(),
            start <= n,
            forall|i: int| 0 <= i < start ==> is_whitespace(#[trigger] s@[i]),
            !scanning ==> start < n && !is_whitespace(s@[start as int]),
        decreases n - start + if scanning { 1int } else { 0int },
    {
        if is_whitespace_char(s.get_char(start)) {
            start = start + 1;
        } else {
            scanning = false;
        }
    }
    let mut end: usize = n;
    scanning = true;
    while scanning && start < end
        invariant
            n == s@.len(),
            start <= end <= n,
            forall|i: int| end <= i < n ==> is_whitespace(#[trigger] s@[i]),
            !scanning ==> start < end && !is_whitespace(s@[end - 1]),
        decreases end - start + if scanning { 1int } else { 0int },
    {
        if is_whitespace_char(s.get_char(end - 1)) {
            end = end - 1;
        } else {
            scanning = false;
        }
    }
    proof {
        lemma_leading_whitespace_is(s@, start as int);
        let rest = s@.skip(start as int);
        assert forall|i: int| end - start <= i < rest.len() implies is_whitespace(
            #[trigger] rest[i],
        ) by {
            assert(rest[i] == s@[i + start]);
        }
        if end > start {
            assert(rest[end - start - 1] == s@[end - 1]);
        }
        lemma_trailing_whitespace_is(rest, end - start);
        assert(s@.subrange(start as int, end as int) =~= trimmed(s@));
    }
    s.substring_char(start, end)
}

/// The leading white space ends where the first other character stands.
pub proof fn lemma_leading_whitespace_ends(s: Seq<char>)
    ensures
        leading_whitespace(s) <= s.len(),
        forall|i: int| 0 <= i < leading_whitespace(s) ==> is_whitespace(#[trigger] s[i]),
        leading_whitespace(s) < s.len() ==> !is_whitespace(s[leading_whitespace(s) as int]),
    decreases s.len(),
{
    if s.len() > 0 && is_whitespace(s[0]) {
        let rest = s.drop_first();
        lemma_leading_whitespace_ends(rest);
        assert forall|i: int| 0 <= i < leading_whitespace(s) implies is_whitespace(
            #[trigger] s[i],
        ) by {
            if i > 0 {
                assert(s[i] == rest[i - 1]);
            }
        }
        if leading_whitespace(s) < s.len() {
            assert(s[leading_whitespace(s) as int] == rest[leading_whitespace(rest) as int]);
        }
    }
}

/// The trailing white space begins right after the last other character.
pub proof fn lemma_trailing_whitespace_begins(s: Seq<char>)
    ensures
        trailing_whitespace(s) <= s.len(),
        forall|i: int|
            s.len() - trailing_whitespace(s) <= i < s.len() ==> is_whitespace(#[trigger] s[i]),
        trailing_whitespace(s) < s.len() ==> !is_whitespace(
            s[s.len() - trailing_whitespace(s) - 1],
        ),
    decreases s.len(),
{
    if s.len() > 0 && is_whitespace(s.last()) {
        let rest = s.drop_last();
        lemma_trailing_whitespace_begins(rest);
        assert forall|i: int| s.len() - trailing_whitespace(s) <= i < s.len() implies is_whitespace(
            #[trigger] s[i],
        ) by {
            if i < s.len() - 1 {
                assert(s[i] == rest[i]);
            }
        }
        if trailing_whitespace(s) < s.len() {
            assert(s[s.len() - trailing_whitespace(s) - 1] == rest[rest.len() - trailing_whitespace(
                rest,
            ) - 1]);
        }
    }
}

/// Trimming removes white space from the two ends and nothing else: the
/// text is some white space, then the trimmed text unchanged, then some
/// white space; and the trimmed text neither begins nor ends with white
/// space.
pub proof fn lemma_trimmed_frames(s: Seq<char>)
    ensures
        ({
            let a = leading_whitespace(s) as int;
            let b = a + trimmed(s).len();
            &&& 0 <= a <= b <= s.len()
            &&& s == s.take(a) + trimmed(s) + s.skip(b)
            &&& forall|i: int| 0 <= i < a ==> is_whitespace(#[trigger] s[i])
            &&& forall|i: int| b <= i < s.len() ==> is_whitespace(#[trigger] s[i])
        }),
        trimmed(s).len() > 0 ==> !is_whitespace(trimmed(s)[0]) && !is_whitespace(
            trimmed(s).last(),
        ),
{
    let a = leading_whitespace(s) as int;
    lemma_leading_whitespace_ends(s);
    let rest = s.skip(a);
    lemma_trailing_whitespace_begins(rest);
    let t = trimmed(s);
    let b = a + t.len();
    assert(s =~= s.take(a) + t + s.skip(b));
    assert forall|i: int| b <= i < s.len() implies is_whitespace(#[trigger] s[i]) by {
        assert(s[i] == rest[i - a]);
    }
    if t.len() > 0 {
        assert(t[0] == s[a]);
        assert(t.last() == rest[rest.len() - trailing_whitespace(rest) - 1]);
    }
}

/// Trimming a trimmed text changes nothing.
pub proof fn lemma_trimmed_twice(s: Seq<char>)
    ensures
        trimmed(trimmed(s)) == trimmed(s),
{
    let t = trimmed(s);
    lemma_trimmed_frames(s);
    if t.len() > 0 {
        lemma_leading_whitespace_is(t, 0);
        assert(t.skip(0) =~= t);
        lemma_trailing_whitespace_is(t, t.len() as int);
        assert(t.take(t.len() as int) =~= t);
    } else {
        assert(trimmed(t) =~= t);
    }
}

/// What the shell makes of one attempt to read a line.
#[derive(Debug)]
pub struct UserResponse {
    /// The answer handed to the caller.
    pub text: String,
    /// The line written back to the user.
    pub echo: String,
}

/// The answer to a read: the line without its surrounding white space, or
/// nothing at all when the read failed.
pub open spec fn response_text(read: Result<Seq<char>, Seq<char>>) -> Seq<char> {
    match read {
        Ok(line) => trimmed(line),
        Err(_) => Seq::<char>::empty(),
    }
}

/// The line written back after a read: what was entered, or why nothing
/// was.
pub open spec fn response_echo(read: Result<Seq<char>, Seq<char>>) -> Seq<char> {
    match read {
        Ok(line) => "You entered: "@ + trimmed(line) + "\n"@,
        Err(reason) => "Error reading input: "@ + reason + "\n"@,
    }
}

/// Settles one attempt to read a line: `Ok` holds the line as it was read,
/// `Err` the reason why none was. A failed read gives the empty answer.
pub fn user_response(read: Result<&str, &str>) -> (response: UserResponse)
    ensures
        response.text@ == response_text(
            match read {
                Ok(line) => Ok(line@),
                Err(reason) => Err(reason@),
            },
        ),
        response.echo@ == response_echo(
            match read {
                Ok(line) => Ok(line@),
                Err(reason) => Err(reason@),
            },
        ),
{
    match read {
        Ok(line) => {
            let trimmed_input = trim(line);
            let mut echo = String::from_str("You entered: ");
            echo.append(trimmed_input);
            echo.append("\n");
            UserResponse { text: String::from_str(trimmed_input), echo }
        },
        Err(reason) => {
            let mut echo = String::from_str("Error reading input: ");
            echo.append(reason);
            echo.append("\n");
            UserResponse { text: String::new(), echo }
        },
    }
}

} // verus!
