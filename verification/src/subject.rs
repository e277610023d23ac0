//! Subjects: splitting into tokens and telling control commands from
//! business subjects.

use crate::text::reads_as;
use vstd::prelude::*;
use vstd::string::*;

verus! {

/// The character that separates the tokens of a subject.
pub const DELIMITER: char = '.';

/// The number of characters of `s` that stand before its first delimiter;
/// the length of `s` where it holds none.
pub open spec fn first_delimiter(s: Seq<char>) -> nat
    decreases s.len(),
{
    if s.len() == 0 || s[0] == DELIMITER {
        0
    } else {
        1 + first_delimiter(s.drop_first())
    }
}

/// The tokens of a subject: the text before the first delimiter, then the
/// tokens of the text behind it. Empty tokens are kept, so a subject with `n`
/// delimiters has `n + 1` tokens.
pub open spec fn split(s: Seq<char>) -> Seq<Seq<char>>
    decreases s.len(),
{
    let k = first_delimiter(s) as int;
    if 0 <= k < s.len() {
        seq![s.take(k)] + split(s.skip(k + 1))
    } else {
        seq![s]
    }
}

/// The tokens put together again, with one delimiter between neighbours.
pub open spec fn join(tokens: Seq<Seq<char>>) -> Seq<char>
    decreases tokens.len(),
{
    if tokens.len() == 0 {
        Seq::empty()
    } else if tokens.len() == 1 {
        tokens[0]
    } else {
        tokens[0] + seq![DELIMITER] + join(tokens.drop_first())
    }
}

/// Whether `s` holds no delimiter.
pub open spec fn delimiter_free(s: Seq<char>) -> bool {
    forall|i: int| 0 <= i < s.len() ==> s[i] != DELIMITER
}

/// `first_delimiter` stays within the text and points at a delimiter unless
/// it is the length; nothing before it is a delimiter.
pub proof fn lemma_first_delimiter(s: Seq<char>)
    ensures
        first_delimiter(s) <= s.len(),
        first_delimiter(s) < s.len() ==> s[first_delimiter(s) as int] == DELIMITER,
        forall|i: int| 0 <= i < first_delimiter(s) ==> s[i] != DELIMITER,
    decreases s.len(),
{
    if s.len() == 0 || s[0] == DELIMITER {
    } else {
        let rest = s.drop_first();
        lemma_first_delimiter(rest);
        assert forall|i: int| 0 <= i < first_delimiter(s) implies s[i] != DELIMITER by {
            if i > 0 {
                assert(s[i] == rest[i - 1]);
            }
        }
    }
}

/// A position that holds the first delimiter of `s`, or is its length where
/// `s` has none before it, is `first_delimiter(s)`.
pub proof fn lemma_first_delimiter_is(s: Seq<char>, k: int)
    requires
        0 <= k <= s.len(),
        forall|i: int| 0 <= i < k ==> s[i] != DELIMITER,
        k < s.len() ==> s[k] == DELIMITER,
    ensures
        first_delimiter(s) == k,
{
    lemma_first_delimiter(s);
}

/// The tokens of a text that holds no delimiter are the text itself.
pub proof fn lemma_split_delimiter_free(s: Seq<char>)
    requires
        delimiter_free(s),
    ensures
        split(s) == seq![s],
{
    lemma_first_delimiter_is(s, s.len() as int);
}

/// Joining the tokens of a subject with the delimiter gives the subject
/// back: splitting loses nothing.
pub proof fn lemma_join_split(s: Seq<char>)
    ensures
        join(split(s)) == s,
    decreases s.len(),
{
    lemma_first_delimiter(s);
    let k = first_delimiter(s) as int;
    if k < s.len() {
        let rest = s.skip(k + 1);
        lemma_join_split(rest);
        assert(split(s).drop_first() == split(rest));
    }
}

/// The tokens of two texts with a delimiter between them are the tokens of
/// the first followed by the tokens of the second.
pub proof fn lemma_split_concat(a: Seq<char>, b: Seq<char>)
    ensures
        split(a + seq![DELIMITER] + b) == split(a) + split(b),
    decreases a.len(),
{
    let s = a + seq![DELIMITER] + b;
    lemma_first_delimiter(a);
    let k = first_delimiter(a) as int;
    if k < a.len() {
        lemma_first_delimiter_is(s, k);
        let rest = a.skip(k + 1);
        lemma_split_concat(rest, b);
        assert(s.skip(k + 1) == rest + seq![DELIMITER] + b);
        assert(s.take(k) == a.take(k));
    } else {
        lemma_first_delimiter_is(s, k);
        assert(s.take(k) == a);
        assert(s.skip(k + 1) == b);
    }
}

/// Splits a subject on the delimiter into its tokens, in order. Empty
/// tokens are kept.
pub fn parse(subject: &str) -> (tokens: Vec<String>)
    ensures
        tokens.deep_view() == split(subject@),
{
    let n = subject.unicode_len();
    let mut tokens: Vec<String> = Vec::new();
    let mut start: usize = 0;
    let mut i: usize = 0;
    assert(subject@.skip(0) == subject@);
    while i < n
        invariant
            n == subject@.len(),
            start <= i <= n,
            forall|j: int| start <= j < i ==> subject@[j] != DELIMITER,
            tokens.deep_view() + split(subject@.skip(start as int)) == split(subject@),
        decreases n - i,
    {
        if subject.get_char(i) == DELIMITER {
            let token = subject.substring_char(start, i).to_owned();
            proof {
                let rest = subject@.skip(start as int);
                lemma_first_delimiter_is(rest, i - start);
                assert(rest.take(i - start) == subject@.subrange(start as int, i as int));
                assert(rest.skip(i - start + 1) == subject@.skip(i + 1));
            }
            tokens.push(token);
            start = i + 1;
        }
        i += 1;
    }
    let token = subject.substring_char(start, n).to_owned();
    proof {
        lemma_split_delimiter_free(subject@.skip(start as int));
    }
    tokens.push(token);
    tokens
}

/// The first token of every control subject.
pub const CONTROL_PREFIX: &'static str = "$CTL";

/// A discovery verb.
#[derive(Clone, Copy, Debug, PartialEq, Eq)]
pub enum Verb {
    Ping,
    Info,
    Stats,
}

/// Which instances a control command addresses.
#[derive(Debug, PartialEq, Eq)]
pub enum Scope {
    /// Every instance of every service.
    All,
    /// The instances of the service with this name.
    Service { name: String },
    /// The instance with this id of the service with this name.
    Instance { name: String, id: String },
}

/// A [`Scope`] as plain values.
pub enum ScopeView {
    All,
    Service { name: Seq<char> },
    Instance { name: Seq<char>, id: Seq<char> },
}

impl View for Scope {
    type V = ScopeView;

    open spec fn view(&self) -> ScopeView {
        match self {
            Scope::All => ScopeView::All,
            Scope::Service { name } => ScopeView::Service { name: name@ },
            Scope::Instance { name, id } => ScopeView::Instance { name: name@, id: id@ },
        }
    }
}

/// What a subject asks for.
#[derive(Debug, PartialEq, Eq)]
pub enum Topic {
    /// A discovery command.
    Control { verb: Verb, scope: Scope },
    /// The subject of a business endpoint.
    Business { subject: String },
    /// A subject under the control prefix that is no command: it has no
    /// verb, an unknown verb, or more tokens than a scope has.
    Ignored,
}

/// A [`Topic`] as plain values.
pub enum TopicView {
    Control { verb: Verb, scope: ScopeView },
    Business { subject: Seq<char> },
    Ignored,
}

impl View for Topic {
    type V = TopicView;

    open spec fn view(&self) -> TopicView {
        match self {
            Topic::Control { verb, scope } => TopicView::Control { verb: *verb, scope: scope@ },
            Topic::Business { subject } => TopicView::Business { subject: subject@ },
            Topic::Ignored => TopicView::Ignored,
        }
    }
}

/// The token that names a verb.
pub open spec fn verb_token(verb: Verb) -> Seq<char> {
    match verb {
        Verb::Ping => "PING"@,
        Verb::Info => "INFO"@,
        Verb::Stats => "STATS"@,
    }
}

/// The verb that a token names, if it names one.
pub open spec fn verb_of(token: Seq<char>) -> Option<Verb> {
    if token == verb_token(Verb::Ping) {
        Some(Verb::Ping)
    } else if token == verb_token(Verb::Info) {
        Some(Verb::Info)
    } else if token == verb_token(Verb::Stats) {
        Some(Verb::Stats)
    } else {
        None
    }
}

/// The verb tokens hold no delimiter and name their own verb; neither does
/// the control prefix hold one.
pub proof fn lemma_command_tokens(verb: Verb)
    ensures
        delimiter_free(CONTROL_PREFIX@),
        delimiter_free(verb_token(verb)),
        verb_of(verb_token(verb)) == Some(verb),
{
    reveal_strlit("$CTL");
    reveal_strlit("PING");
    reveal_strlit("INFO");
    reveal_strlit("STATS");
    assert("PING"@[0] != "INFO"@[0]);
}

/// What the tokens of `subject` ask for. A subject whose first token is not
/// the control prefix is a business subject. Under the prefix, the second
/// token is the verb, and a third and a fourth narrow the scope to a service
/// name and an instance id.
pub open spec fn topic_of_tokens(subject: Seq<char>, tokens: Seq<Seq<char>>) -> TopicView {
    if tokens.len() == 0 || tokens[0] != CONTROL_PREFIX@ {
        TopicView::Business { subject }
    } else if tokens.len() < 2 || tokens.len() > 4 {
        TopicView::Ignored
    } else {
        match verb_of(tokens[1]) {
            None => TopicView::Ignored,
            Some(verb) => TopicView::Control {
                verb,
                scope: if tokens.len() == 2 {
                    ScopeView::All
                } else if tokens.len() == 3 {
                    ScopeView::Service { name: tokens[2] }
                } else {
                    ScopeView::Instance { name: tokens[2], id: tokens[3] }
                },
            },
        }
    }
}

/// What a subject asks for.
pub open spec fn topic_of(subject: Seq<char>) -> TopicView {
    topic_of_tokens(subject, split(subject))
}

/// Whether a command with this scope addresses the instance `id` of the
/// service `name`.
pub open spec fn scope_admits(scope: ScopeView, name: Seq<char>, id: Seq<char>) -> bool {
    match scope {
        ScopeView::All => true,
        ScopeView::Service { name: wanted } => wanted == name,
        ScopeView::Instance { name: wanted, id: wanted_id } => wanted == name && wanted_id == id,
    }
}

/// The subject that carries a command: the control prefix, the verb and
/// the tokens of the scope, with delimiters between them.
pub open spec fn command_subject(verb: Verb, scope: ScopeView) -> Seq<char> {
    let bare = CONTROL_PREFIX@ + seq![DELIMITER] + verb_token(verb);
    match scope {
        ScopeView::All => bare,
        ScopeView::Service { name } => bare + seq![DELIMITER] + name,
        ScopeView::Instance { name, id } => bare + seq![DELIMITER] + name + seq![DELIMITER] + id,
    }
}

/// Whether the name and the id in a scope hold no delimiter.
pub open spec fn scope_delimiter_free(scope: ScopeView) -> bool {
    match scope {
        ScopeView::All => true,
        ScopeView::Service { name } => delimiter_free(name),
        ScopeView::Instance { name, id } => delimiter_free(name) && delimiter_free(id),
    }
}

/// The subject that carries a command is read as that command, provided
/// that the name and the id in its scope hold no delimiter.
pub proof fn lemma_command_subject_is_control(verb: Verb, scope: ScopeView)
    requires
        scope_delimiter_free(scope),
    ensures
        topic_of(command_subject(verb, scope)) == (TopicView::Control { verb, scope }),
{
    lemma_command_tokens(verb);
    let prefix = CONTROL_PREFIX@;
    let token = verb_token(verb);
    let bare = prefix + seq![DELIMITER] + token;
    lemma_split_delimiter_free(prefix);
    lemma_split_delimiter_free(token);
    lemma_split_concat(prefix, token);
    match scope {
        ScopeView::All => {},
        ScopeView::Service { name } => {
            lemma_split_delimiter_free(name);
            lemma_split_concat(bare, name);
        },
        ScopeView::Instance { name, id } => {
            lemma_split_delimiter_free(name);
            lemma_split_delimiter_free(id);
            lemma_split_concat(bare, name);
            lemma_split_concat(bare + seq![DELIMITER] + name, id);
        },
    }
}

/// A subject that is read as a command is the subject that carries that
/// command: no other subject is taken for it.
pub proof fn lemma_control_is_command_subject(subject: Seq<char>)
    ensures
        topic_of(subject) matches TopicView::Control { verb, scope } ==> subject == command_subject(
            verb,
            scope,
        ),
{
    if let TopicView::Control { verb, scope } = topic_of(subject) {
        let tokens = split(subject);
        lemma_join_split(subject);
        let rest1 = tokens.drop_first();
        if tokens.len() == 2 {
            assert(join(rest1) == tokens[1]);
        } else {
            let rest2 = rest1.drop_first();
            if tokens.len() == 3 {
                assert(join(rest2) == tokens[2]);
                assert(join(rest1) == tokens[1] + seq![DELIMITER] + tokens[2]);
            } else {
                let rest3 = rest2.drop_first();
                assert(join(rest3) == tokens[3]);
                assert(join(rest2) == tokens[2] + seq![DELIMITER] + tokens[3]);
                assert(join(rest1) == tokens[1] + seq![DELIMITER] + (tokens[2] + seq![DELIMITER]
                    + tokens[3]));
            }
        }
    }
}

impl Scope {
    /// Whether a command with this scope addresses the instance `id` of the
    /// service `name`.
    pub fn admits(&self, name: &String, id: &String) -> (admitted: bool)
        ensures
            admitted == scope_admits(self@, name@, id@),
    {
        match self {
            Scope::All => true,
            Scope::Service { name: wanted } => *wanted == *name,
            Scope::Instance { name: wanted, id: wanted_id } => *wanted == *name && *wanted_id == *id,
        }
    }
}

/// Tells what a subject asks for.
pub fn classify(subject: &str) -> (topic: Topic)
    ensures
        topic@ == topic_of(subject@),
{
    let tokens = parse(subject);
    if !reads_as(&tokens[0], CONTROL_PREFIX) {
        return Topic::Business { subject: subject.to_owned() };
    }
    if tokens.len() < 2 || tokens.len() > 4 {
        return Topic::Ignored;
    }
    let verb = if reads_as(&tokens[1], "PING") {
        Verb::Ping
    } else if reads_as(&tokens[1], "INFO") {
        Verb::Info
    } else if reads_as(&tokens[1], "STATS") {
        Verb::Stats
    } else {
        return Topic::Ignored;
    };
    let scope = if tokens.len() == 2 {
        Scope::All
    } else if tokens.len() == 3 {
        Scope::Service { name: tokens[2].clone() }
    } else {
        Scope::Instance { name: tokens[2].clone(), id: tokens[3].clone() }
    };
    Topic::Control { verb, scope }
}

} // verus!
