//! Scripted conformance sessions with an instantiated module.
//!
//! A script is a sequence of steps. Each step names one call into the module and says what the
//! reply has to look like. A session walks through a script: it hands out the next call, takes the
//! reply, and either moves on or stops with the first failure.
//!
//! Arguments and results travel as flat sequences of words, whatever their interface type:
//!
//! * an integer, a boolean, a character or a set of flags is one word with its value;
//! * a floating point number is one word with the bits of its double precision value, into which
//!   single precision values widen without loss;
//! * a record or a tuple is its fields, one after the other;
//! * a variant is the index of its case, then the payload; an option has the cases `none` and
//!   `some`, a result the cases `ok` and `err`;
//! * a list or a string is its length, then its items or characters;
//! * a buffer to be filled is its capacity as an argument, and the list of what it holds afterwards
//!   as a part of the result;
//! * a handle is its number in the order in which the session received the handles it keeps; one
//!   that the session does not keep is dropped on receipt and stands as zero.

use vstd::prelude::*;

verus! {

/// The words of a string: its length, then one word per character.
pub open spec fn text_words(s: Seq<char>) -> Seq<i128> {
    seq![s.len() as i128] + s.map_values(|c: char| c as i128)
}

/// Strings among words.
pub trait TextWords: Sized {
    /// Appends the words of a string.
    spec fn text(self, s: Seq<char>) -> Self;
}

impl TextWords for Seq<i128> {
    open spec fn text(self, s: Seq<char>) -> Seq<i128> {
        self + text_words(s)
    }
}

/// A flat sequence of words.
pub struct Words {
    pub words: Vec<i128>,
}

impl View for Words {
    type V = Seq<i128>;

    open spec fn view(&self) -> Seq<i128> {
        self.words@
    }
}

impl Words {
    /// No words at all.
    pub fn new() -> (ret: Words)
        ensures
            ret@ == Seq::<i128>::empty(),
    {
        Words { words: Vec::new() }
    }

    /// The same words once more.
    pub fn copy(&self) -> (ret: Words)
        ensures
            ret@ == self@,
    {
        let mut words: Vec<i128> = Vec::new();
        let mut i: usize = 0;
        while i < self.words.len()
            invariant
                i <= self@.len(),
                words@ == self@.take(i as int),
            decreases self@.len() - i,
        {
            words.push(self.words[i]);
            i += 1;
        }
        Words { words }
    }

    /// Appends one word.
    pub fn word(self, word: i128) -> (ret: Words)
        ensures
            ret@ == self@.push(word),
    {
        let mut words = self.words;
        words.push(word);
        Words { words }
    }

    /// Appends the words of a string.
    pub fn text(self, s: &str) -> (ret: Words)
        ensures
            ret@ == self@.text(s@),
    {
        let mut words = self.words;
        let len: usize = s.unicode_len();
        words.push(len as i128);
        let mut i: usize = 0;
        while i < len
            invariant
                i <= len,
                len == s@.len(),
                words@ == self@ + text_words(s@).take(i + 1),
            decreases len - i,
        {
            words.push(s.get_char(i) as u32 as i128);
            i += 1;
        }
        Words { words }
    }

    /// Whether these are the given words.
    fn equals(&self, other: &Words) -> (ret: bool)
        ensures
            ret == (self@ == other@),
    {
        let same = self.words.len() == other.words.len() && self.starts_with(other);
        proof {
            if same {
                assert(self@ =~= other@);
            }
        }
        same
    }

    /// Whether the given words come first in these.
    fn starts_with(&self, prefix: &Words) -> (ret: bool)
        ensures
            ret == prefix@.is_prefix_of(self@),
    {
        if prefix.words.len() > self.words.len() {
            return false;
        }
        let mut i: usize = 0;
        while i < prefix.words.len()
            invariant
                i <= prefix@.len() <= self@.len(),
                forall|k: int| 0 <= k < i ==> prefix@[k] == self@[k],
            decreases prefix@.len() - i,
        {
            if prefix.words[i] != self.words[i] {
                return false;
            }
            i += 1;
        }
        true
    }
}

/// Whether a double precision bit pattern is one of those that are not a number: all exponent bits
/// set and a fraction other than zero, under either sign.
pub open spec fn is_nan_bits(bits: i128) -> bool {
    ||| INFINITY < bits < SIGN_BIT
    ||| SIGN_BIT + INFINITY < bits < SIGN_BIT + SIGN_BIT
}

/// The sign bit of a double precision number.
pub const SIGN_BIT: i128 = 0x8000_0000_0000_0000;

/// The bits of double precision infinity.
pub const INFINITY: i128 = 0x7ff0_0000_0000_0000;

/// Whether `part` occurs in `whole`.
pub open spec fn occurs_in(part: Seq<char>, whole: Seq<char>) -> bool {
    exists|at: int| occurs_at(part, whole, at)
}

/// Whether `part` occurs in `whole` from position `at` on.
pub open spec fn occurs_at(part: Seq<char>, whole: Seq<char>, at: int) -> bool {
    0 <= at && at + part.len() <= whole.len() && whole.subrange(at, at + part.len()) == part
}

/// The characters of a string.
fn chars(s: &str) -> (ret: Vec<char>)
    ensures
        ret@ == s@,
{
    let len: usize = s.unicode_len();
    let mut ret: Vec<char> = Vec::new();
    let mut i: usize = 0;
    while i < len
        invariant
            i <= len,
            len == s@.len(),
            ret@ == s@.take(i as int),
        decreases len - i,
    {
        ret.push(s.get_char(i));
        i += 1;
    }
    ret
}

/// Whether `part` occurs in `whole` from position `at` on.
fn contains_at(whole: &Vec<char>, part: &Vec<char>, at: usize) -> (ret: bool)
    requires
        at + part@.len() <= whole@.len(),
    ensures
        ret == occurs_at(part@, whole@, at as int),
{
    let len: usize = whole.len();
    let mut i: usize = 0;
    while i < part.len()
        invariant
            i <= part@.len(),
            at + part@.len() <= whole@.len() == len,
            forall|k: int| 0 <= k < i ==> whole@[at + k] == part@[k],
        decreases part@.len() - i,
    {
        if whole[at + i] != part[i] {
            assert(whole@.subrange(at as int, at + part@.len())[i as int] != part@[i as int]);
            return false;
        }
        i += 1;
    }
    assert(whole@.subrange(at as int, at + part@.len()) =~= part@);
    true
}

/// Whether `part` occurs in `whole`.
fn contains(whole: &str, part: &str) -> (ret: bool)
    ensures
        ret == occurs_in(part@, whole@),
{
    let text = chars(whole);
    let pattern = chars(part);
    if pattern.len() > text.len() {
        return false;
    }
    let last: usize = text.len() - pattern.len();
    let mut at: usize = 0;
    while at < last
        invariant
            text@ == whole@,
            pattern@ == part@,
            at <= last == whole@.len() - part@.len(),
            forall|k: int| k < at ==> !occurs_at(part@, whole@, k),
        decreases last - at,
    {
        if contains_at(&text, &pattern, at) {
            return true;
        }
        at += 1;
    }
    contains_at(&text, &pattern, last)
}

/// What the reply to a call has to look like.
pub enum Check {
    /// The call has to succeed.
    Accept,
    /// The reply is exactly these words.
    Equals(Words),
    /// The reply begins with these words.
    Prefix(Words),
    /// The reply is one floating point number that is not a number.
    NotANumber,
    /// The reply is a count of bytes, from which growth is measured until the next such step.
    Baseline,
    /// The reply is a count of bytes that exceeds the last baseline by exactly this much.
    Grown(u32),
    /// The call has to fail with a message that holds this text.
    Traps(&'static str),
}

/// A [`Check`], over mathematical values.
#[verifier::ext_equal]
pub enum CheckView {
    Accept,
    Equals(Seq<i128>),
    Prefix(Seq<i128>),
    NotANumber,
    Baseline,
    Grown(u32),
    Traps(Seq<char>),
}

impl View for Check {
    type V = CheckView;

    open spec fn view(&self) -> CheckView {
        match *self {
            Check::Accept => CheckView::Accept,
            Check::Equals(words) => CheckView::Equals(words@),
            Check::Prefix(words) => CheckView::Prefix(words@),
            Check::NotANumber => CheckView::NotANumber,
            Check::Baseline => CheckView::Baseline,
            Check::Grown(by) => CheckView::Grown(by),
            Check::Traps(text) => CheckView::Traps(text@),
        }
    }
}

/// A call into the module.
pub enum Call {
    /// Calls a typed export. Handles in the result are kept, in order, if `keep` is set, and
    /// dropped on receipt otherwise.
    Export { name: &'static str, args: Words, keep: bool },
    /// Calls an export that takes and returns nothing, by its bare name.
    Run { name: &'static str },
    /// Drops the kept handle of this number.
    Release { handle: usize },
}

/// A [`Call`], over mathematical values.
#[verifier::ext_equal]
pub enum CallView {
    Export { name: Seq<char>, args: Seq<i128>, keep: bool },
    Run { name: Seq<char> },
    Release { handle: usize },
}

impl View for Call {
    type V = CallView;

    open spec fn view(&self) -> CallView {
        match *self {
            Call::Export { name, args, keep } => CallView::Export {
                name: name@,
                args: args@,
                keep,
            },
            Call::Run { name } => CallView::Run { name: name@ },
            Call::Release { handle } => CallView::Release { handle },
        }
    }
}

/// A call and what its reply has to look like.
pub struct Step {
    pub call: Call,
    pub check: Check,
}

/// A [`Step`], over mathematical values.
#[verifier::ext_equal]
pub struct StepView {
    pub call: CallView,
    pub check: CheckView,
}

impl View for Step {
    type V = StepView;

    open spec fn view(&self) -> StepView {
        StepView { call: self.call@, check: self.check@ }
    }
}

/// What came back from a call: the words of its result, or the message of the error.
pub type Reply = Result<Words, String>;

/// Why a session stopped.
#[derive(Debug, PartialEq, Eq)]
pub enum Failure {
    /// The call itself failed, and its error is the outcome.
    Call,
    /// The result is not the expected one.
    Mismatch,
    /// The call was expected to trap and returned.
    DidNotTrap,
}

impl CheckView {
    /// Whether the words of a result are what is asked for, `baseline` being the last baseline.
    pub open spec fn met_by(self, baseline: u32, words: Seq<i128>) -> bool {
        match self {
            CheckView::Accept => true,
            CheckView::Equals(expected) => words == expected,
            CheckView::Prefix(expected) => expected.is_prefix_of(words),
            CheckView::NotANumber => words.len() == 1 && is_nan_bits(words[0]),
            CheckView::Baseline => words.len() == 1 && 0 <= words[0] <= u32::MAX,
            CheckView::Grown(by) => words.len() == 1 && words[0] == baseline + by,
            CheckView::Traps(_) => false,
        }
    }

    /// What a reply means for the session.
    pub open spec fn judge(self, baseline: u32, reply: Reply) -> Result<(), Failure> {
        match (self, reply) {
            (CheckView::Traps(_), Ok(_)) => Err(Failure::DidNotTrap),
            (CheckView::Traps(text), Err(message)) => if occurs_in(text, message@) {
                Ok(())
            } else {
                Err(Failure::Call)
            },
            (_, Err(_)) => Err(Failure::Call),
            (_, Ok(words)) => if self.met_by(baseline, words@) {
                Ok(())
            } else {
                Err(Failure::Mismatch)
            },
        }
    }

    /// The baseline after an accepted reply.
    pub open spec fn baseline_after(self, baseline: u32, reply: Reply) -> u32 {
        match (self, reply) {
            (CheckView::Baseline, Ok(words)) => words@[0] as u32,
            _ => baseline,
        }
    }
}

impl Check {
    /// Whether the words of a result are what is asked for, `baseline` being the last baseline.
    fn is_met_by(&self, baseline: u32, reply: &Words) -> (ret: bool)
        ensures
            ret == self@.met_by(baseline, reply@),
    {
        match self {
            Check::Accept => true,
            Check::Equals(expected) => reply.equals(expected),
            Check::Prefix(expected) => reply.starts_with(expected),
            Check::NotANumber => reply.words.len() == 1 && {
                let bits: i128 = reply.words[0];
                (INFINITY < bits && bits < SIGN_BIT) || (SIGN_BIT + INFINITY < bits && bits
                    < SIGN_BIT + SIGN_BIT)
            },
            Check::Baseline => reply.words.len() == 1 && 0 <= reply.words[0] && reply.words[0]
                <= u32::MAX as i128,
            Check::Grown(by) => reply.words.len() == 1 && reply.words[0] == baseline as i128 + *by
                as i128,
            Check::Traps(_) => false,
        }
    }

    /// Decides what a reply means for the session.
    pub fn judge(&self, baseline: u32, reply: &Reply) -> (ret: Result<(), Failure>)
        ensures
            ret == self@.judge(baseline, *reply),
    {
        match reply {
            Ok(words) => {
                if let Check::Traps(_) = self {
                    Err(Failure::DidNotTrap)
                } else if self.is_met_by(baseline, words) {
                    Ok(())
                } else {
                    Err(Failure::Mismatch)
                }
            },
            Err(message) => {
                if let Check::Traps(text) = self {
                    if contains(message.as_str(), text) {
                        return Ok(());
                    }
                }
                Err(Failure::Call)
            },
        }
    }
}

/// The text of [`Failure::DidNotTrap`] for the export `name`.
pub fn did_not_trap_message(name: &str) -> (ret: String)
    ensures
        ret@ == "export `"@ + name@ + "` didn't trap"@,
{
    String::from_str("export `").concat(name).concat("` didn't trap")
}

impl StepView {
    /// Calls a typed export and keeps the handles in its result.
    pub open spec fn call(name: Seq<char>, args: Seq<i128>, check: CheckView) -> StepView {
        StepView { call: CallView::Export { name, args, keep: true }, check }
    }

    /// Calls an export without arguments and drops the handles in its result.
    pub open spec fn call_and_drop(name: Seq<char>, check: CheckView) -> StepView {
        StepView { call: CallView::Export { name, args: Seq::empty(), keep: false }, check }
    }

    /// Calls a typed export and wants the arguments back.
    pub open spec fn echo(name: Seq<char>, words: Seq<i128>) -> StepView {
        StepView::call(name, words, CheckView::Equals(words))
    }

    /// Calls an export without arguments and wants the given result.
    pub open spec fn query(name: Seq<char>, expected: Seq<i128>) -> StepView {
        StepView::call(name, Seq::empty(), CheckView::Equals(expected))
    }

    /// Drops a kept handle.
    pub open spec fn release(handle: usize) -> StepView {
        StepView { call: CallView::Release { handle }, check: CheckView::Accept }
    }

    /// Runs an export and wants a trap whose message holds the given text.
    pub open spec fn trap(name: Seq<char>, text: Seq<char>) -> StepView {
        StepView { call: CallView::Run { name }, check: CheckView::Traps(text) }
    }
}

/// A sequence of steps.
pub struct Script {
    steps: Vec<Step>,
}

impl View for Script {
    type V = Seq<StepView>;

    closed spec fn view(&self) -> Seq<StepView> {
        self.steps@.map_values(|step: Step| step@)
    }
}

impl Script {
    /// A script without steps.
    pub fn new() -> (ret: Script)
        ensures
            ret@ == Seq::<StepView>::empty(),
    {
        let ret = Script { steps: Vec::new() };
        assert(ret@ =~= Seq::<StepView>::empty());
        ret
    }

    /// Appends a step.
    pub fn push(&mut self, step: Step)
        ensures
            final(self)@ == old(self)@.push(step@),
    {
        self.steps.push(step);
        assert(self@ =~= old(self)@.push(step@));
    }

    /// Appends all steps of another script.
    pub fn append(&mut self, other: Script)
        ensures
            final(self)@ == old(self)@ + other@,
    {
        let mut steps = other.steps;
        self.steps.append(&mut steps);
        assert(self@ =~= old(self)@ + other@);
    }

    /// Appends a call of a typed export.
    pub fn call(&mut self, name: &'static str, args: Words, check: Check)
        ensures
            final(self)@ == old(self)@.push(StepView::call(name@, args@, check@)),
    {
        self.push(Step { call: Call::Export { name, args, keep: true }, check });
    }

    /// Appends a call of an export without arguments whose result is dropped.
    pub fn call_and_drop(&mut self, name: &'static str, check: Check)
        ensures
            final(self)@ == old(self)@.push(StepView::call_and_drop(name@, check@)),
    {
        self.push(Step { call: Call::Export { name, args: Words::new(), keep: false }, check });
    }

    /// Appends a call of a typed export that has to return its arguments.
    pub fn echo(&mut self, name: &'static str, words: Words)
        ensures
            final(self)@ == old(self)@.push(StepView::echo(name@, words@)),
    {
        let expected = words.copy();
        self.call(name, words, Check::Equals(expected));
    }

    /// Appends a call of an export without arguments that has to return the given result.
    pub fn query(&mut self, name: &'static str, expected: Words)
        ensures
            final(self)@ == old(self)@.push(StepView::query(name@, expected@)),
    {
        self.call(name, Words::new(), Check::Equals(expected));
    }

    /// Appends the drop of a kept handle.
    pub fn release(&mut self, handle: usize)
        ensures
            final(self)@ == old(self)@.push(StepView::release(handle)),
    {
        self.push(Step { call: Call::Release { handle }, check: Check::Accept });
    }

    /// Appends the run of an export that has to trap.
    pub fn trap(&mut self, name: &'static str, text: &'static str)
        ensures
            final(self)@ == old(self)@.push(StepView::trap(name@, text@)),
    {
        self.push(Step { call: Call::Run { name }, check: Check::Traps(text) });
    }
}

/// A walk through a script.
pub struct Session {
    script: Script,
    position: usize,
    baseline: u32,
}

/// A [`Session`], over mathematical values.
pub struct SessionView {
    /// The steps of the script.
    pub steps: Seq<StepView>,
    /// How many of them have been passed.
    pub position: int,
    /// The last baseline, zero before the first.
    pub baseline: u32,
}

impl View for Session {
    type V = SessionView;

    closed spec fn view(&self) -> SessionView {
        SessionView {
            steps: self.script@,
            position: self.position as int,
            baseline: self.baseline,
        }
    }
}

impl SessionView {
    /// A session at the start of a script.
    pub open spec fn start(steps: Seq<StepView>) -> SessionView {
        SessionView { steps, position: 0, baseline: 0 }
    }

    /// Whether a step is left.
    pub open spec fn is_pending(self) -> bool {
        0 <= self.position < self.steps.len()
    }

    /// The check that the next reply has to pass.
    pub open spec fn check(self) -> CheckView {
        self.steps[self.position].check
    }

    /// What the next reply means.
    pub open spec fn judge(self, reply: Reply) -> Result<(), Failure> {
        self.check().judge(self.baseline, reply)
    }

    /// The session after a reply. One that is not accepted leaves it where it is.
    pub open spec fn after(self, reply: Reply) -> SessionView {
        if self.judge(reply) is Ok {
            SessionView {
                steps: self.steps,
                position: self.position + 1,
                baseline: self.check().baseline_after(self.baseline, reply),
            }
        } else {
            self
        }
    }
}

impl Session {
    /// Starts a session.
    pub fn new(script: Script) -> (ret: Session)
        ensures
            ret@ == SessionView::start(script@),
    {
        Session { script, position: 0, baseline: 0 }
    }

    /// The call to make next, or none when the script is through.
    pub fn next_call(&self) -> (ret: Option<&Call>)
        ensures
            ret is Some <==> self@.is_pending(),
            ret matches Some(call) ==> call@ == self@.steps[self@.position].call,
    {
        if self.position < self.script.steps.len() {
            Some(&self.script.steps[self.position].call)
        } else {
            None
        }
    }

    /// Takes the reply to the call that is next, and moves on if it is accepted.
    pub fn on_reply(&mut self, reply: &Reply) -> (ret: Result<(), Failure>)
        requires
            old(self)@.is_pending(),
        ensures
            ret == old(self)@.judge(*reply),
            final(self)@ == old(self)@.after(*reply),
    {
        let check = &self.script.steps[self.position].check;
        let verdict = check.judge(self.baseline, reply);
        if verdict.is_err() {
            return verdict;
        }
        let mut baseline: u32 = self.baseline;
        if let Check::Baseline = check {
            if let Ok(words) = reply {
                baseline = words.words[0] as u32;
            }
        }
        self.baseline = baseline;
        assert(self.position < self.script.steps.len());
        self.position += 1;
        verdict
    }
}

/// The session after a sequence of replies.
pub open spec fn session_after(session: SessionView, replies: Seq<Reply>) -> SessionView
    decreases replies.len(),
{
    if replies.len() == 0 {
        session
    } else {
        session_after(session, replies.drop_last()).after(replies.last())
    }
}

/// Whether the replies answer the steps of a session from its position on, one each, and all of
/// them are accepted.
pub open spec fn all_accepted(session: SessionView, replies: Seq<Reply>) -> bool {
    forall|i: int|
        0 <= i < replies.len() ==> (#[trigger] session_after(session, replies.take(i))).judge(
            replies[i],
        ) is Ok
}

/// Replies are all accepted exactly if those before the last are, and the last one is accepted
/// after them.
proof fn lemma_accepted_one_by_one(session: SessionView, replies: Seq<Reply>)
    requires
        replies.len() > 0,
    ensures
        all_accepted(session, replies) <==> all_accepted(session, replies.drop_last())
            && session_after(session, replies.drop_last()).judge(replies.last()) is Ok,
{
    let init = replies.drop_last();
    let last = replies.len() - 1;
    assert(init == replies.take(last));
    assert(forall|i: int| 0 <= i < last ==> init.take(i) == replies.take(i));
    if all_accepted(session, replies) {
        assert(session_after(session, replies.take(last)).judge(replies[last]) is Ok);
        assert forall|i: int| 0 <= i < last implies (#[trigger] session_after(
            session,
            init.take(i),
        )).judge(init[i]) is Ok by {
            assert(session_after(session, replies.take(i)).judge(replies[i]) is Ok);
        }
    }
    if all_accepted(session, init) && session_after(session, init).judge(replies.last()) is Ok {
        assert forall|i: int| 0 <= i < replies.len() implies (#[trigger] session_after(
            session,
            replies.take(i),
        )).judge(replies[i]) is Ok by {
            if i < last {
                assert(session_after(session, init.take(i)).judge(init[i]) is Ok);
            }
        }
    }
}

/// A session passes as many steps as it gets replies exactly if every one of the replies is
/// accepted where it arrives; the steps themselves never change.
pub proof fn law_session_advances_with_accepted_replies(session: SessionView, replies: Seq<Reply>)
    ensures
        session_after(session, replies).steps == session.steps,
        session.position <= session_after(session, replies).position <= session.position
            + replies.len(),
        session_after(session, replies).position == session.position + replies.len()
            <==> all_accepted(session, replies),
    decreases replies.len(),
{
    if replies.len() > 0 {
        law_session_advances_with_accepted_replies(session, replies.drop_last());
        lemma_accepted_one_by_one(session, replies);
    }
}

/// The first `n` of some accepted replies are all accepted.
pub proof fn lemma_accepted_take(session: SessionView, replies: Seq<Reply>, n: int)
    requires
        all_accepted(session, replies),
        0 <= n <= replies.len(),
    ensures
        all_accepted(session, replies.take(n)),
{
    assert forall|i: int| 0 <= i < n implies (#[trigger] session_after(
        session,
        replies.take(n).take(i),
    )).judge(replies.take(n)[i]) is Ok by {
        assert(replies.take(n).take(i) == replies.take(i));
        assert(session_after(session, replies.take(i)).judge(replies[i]) is Ok);
    }
}

/// Replies may be taken in two portions.
proof fn lemma_session_after_add(session: SessionView, first: Seq<Reply>, second: Seq<Reply>)
    ensures
        session_after(session, first + second) == session_after(
            session_after(session, first),
            second,
        ),
    decreases second.len(),
{
    if second.len() == 0 {
        assert(first + second == first);
    } else {
        lemma_session_after_add(session, first, second.drop_last());
        assert((first + second).drop_last() == first + second.drop_last());
    }
}

/// Of some accepted replies, those after the first `n` are all accepted after those.
pub proof fn lemma_accepted_skip(session: SessionView, replies: Seq<Reply>, n: int)
    requires
        all_accepted(session, replies),
        0 <= n <= replies.len(),
    ensures
        all_accepted(session_after(session, replies.take(n)), replies.skip(n)),
{
    assert forall|i: int| 0 <= i < replies.skip(n).len() implies (#[trigger] session_after(
        session_after(session, replies.take(n)),
        replies.skip(n).take(i),
    )).judge(replies.skip(n)[i]) is Ok by {
        lemma_session_after_add(session, replies.take(n), replies.skip(n).take(i));
        assert(replies.take(n) + replies.skip(n).take(i) == replies.take(n + i));
        assert(session_after(session, replies.take(n + i)).judge(replies[n + i]) is Ok);
    }
}

/// The baseline that the first of some accepted replies sets is still there after the last, if no
/// other of their steps is a baseline.
proof fn lemma_baseline_stays(session: SessionView, replies: Seq<Reply>)
    requires
        session.check() is Baseline,
        replies.len() > 0,
        all_accepted(session, replies),
        forall|i: int|
            session.position < i < session.position + replies.len()
                ==> session.steps[i].check !is Baseline,
    ensures
        replies.first() is Ok,
        replies.first()->Ok_0@.len() == 1,
        session_after(session, replies).baseline == replies.first()->Ok_0@[0],
    decreases replies.len(),
{
    let init = replies.drop_last();
    lemma_accepted_one_by_one(session, replies);
    if init.len() > 0 {
        lemma_baseline_stays(session, init);
        law_session_advances_with_accepted_replies(session, init);
    }
}

/// Growth is measured from the latest baseline: where a reply sets the baseline and a later one
/// passes a growth check, with no other baseline in between, the two counts of bytes differ by
/// exactly the growth that was asked for.
pub proof fn law_growth_is_exact(session: SessionView, replies: Seq<Reply>, by: u32)
    requires
        session.check() is Baseline,
        replies.len() >= 2,
        all_accepted(session, replies),
        session.steps[session.position + replies.len() - 1].check == CheckView::Grown(by),
        forall|i: int|
            session.position < i < session.position + replies.len()
                ==> session.steps[i].check !is Baseline,
    ensures
        replies.first() is Ok,
        replies.first()->Ok_0@.len() == 1,
        replies.last() is Ok,
        replies.last()->Ok_0@ == seq![(replies.first()->Ok_0@[0] + by) as i128],
{
    let init = replies.drop_last();
    lemma_accepted_one_by_one(session, replies);
    lemma_baseline_stays(session, init);
    law_session_advances_with_accepted_replies(session, init);
}

} // verus!
