//! What callers are promised of replies and of sessions, call by call.
use vstd::prelude::*;

use crate::session::{
    Call, Check, CheckView, Failure, Reply, Script, Session, SessionView, Words,
};

verus! {

/// Two sequences of words are the same, word by word.
pub open spec fn same_words(a: Seq<i128>, b: Seq<i128>) -> bool {
    a.len() == b.len() && forall|i: int| 0 <= i < a.len() ==> a[i] == b[i]
}

/// `part` stands somewhere in `whole`, with something before it and something
/// behind it.
pub open spec fn stands_in(part: Seq<char>, whole: Seq<char>) -> bool {
    exists|before: Seq<char>, behind: Seq<char>| #[trigger] (before + part + behind) == whole
}

/// The bits of a number that is none: the eleven bits below the sign are all
/// set, and of the fifty-two below those at least one.
pub open spec fn is_no_number(bits: i128) -> bool {
    &&& 0 <= bits < 0x1_0000_0000_0000_0000
    &&& (bits / 0x10_0000_0000_0000) % 0x800 == 0x7ff
    &&& bits % 0x10_0000_0000_0000 != 0
}

/// `reply` is what a step with this check asks for, `baseline` being the last
/// count of bytes that growth is measured from.
pub open spec fn is_wanted(check: CheckView, baseline: u32, reply: Reply) -> bool {
    match check {
        CheckView::Accept => reply is Ok,
        CheckView::Equals(expected) => reply is Ok && same_words(reply->Ok_0.words@, expected),
        CheckView::Prefix(expected) => reply is Ok && reply->Ok_0.words@.len() >= expected.len()
            && forall|i: int| 0 <= i < expected.len() ==> reply->Ok_0.words@[i] == expected[i],
        CheckView::NotANumber => reply is Ok && reply->Ok_0.words@.len() == 1 && is_no_number(
            reply->Ok_0.words@[0],
        ),
        CheckView::Baseline => reply is Ok && reply->Ok_0.words@.len() == 1 && 0
            <= reply->Ok_0.words@[0] < 0x1_0000_0000,
        CheckView::Grown(by) => reply is Ok && reply->Ok_0.words@.len() == 1
            && reply->Ok_0.words@[0] - baseline == by,
        CheckView::Traps(text) => reply is Err && stands_in(text, reply->Err_0@),
    }
}

/// A part of a string occurs in it exactly if the string is something, then the
/// part, then something.
proof fn lemma_stands_in(part: Seq<char>, whole: Seq<char>)
    ensures
        crate::session::occurs_in(part, whole) <==> stands_in(part, whole),
{
    if crate::session::occurs_in(part, whole) {
        let at = choose|at: int| crate::session::occurs_at(part, whole, at);
        let before = whole.take(at);
        let behind = whole.skip(at + part.len());
        assert(before + part + behind =~= whole);
    }
    if stands_in(part, whole) {
        let (before, behind) = choose|before: Seq<char>, behind: Seq<char>| #[trigger]
            (before + part + behind) == whole;
        let at = before.len() as int;
        assert(whole.subrange(at, at + part.len()) =~= part);
        assert(crate::session::occurs_at(part, whole, at));
    }
}

/// The bit patterns between the infinities and the next sign are those that are
/// no number.
proof fn lemma_no_number(bits: i128)
    ensures
        crate::session::is_nan_bits(bits) <==> is_no_number(bits),
{
}

/// What is accepted is exactly what is wanted.
proof fn lemma_accepted_is_wanted(check: CheckView, baseline: u32, reply: Reply)
    ensures
        check.judge(baseline, reply) is Ok <==> is_wanted(check, baseline, reply),
        check.judge(baseline, reply) is Err ==> check.judge(baseline, reply)->Err_0 == (if reply
            is Err {
            Failure::Call
        } else if check is Traps {
            Failure::DidNotTrap
        } else {
            Failure::Mismatch
        }),
{
    match check {
        CheckView::Equals(expected) => {
            if reply is Ok && same_words(reply->Ok_0.words@, expected) {
                assert(reply->Ok_0@ =~= expected);
            }
        },
        CheckView::Prefix(expected) => {
            if reply is Ok && reply->Ok_0.words@.len() >= expected.len() {
                let front = reply->Ok_0@.subrange(0, expected.len() as int);
                if is_wanted(check, baseline, reply) {
                    assert(front =~= expected);
                }
                assert(forall|i: int|
                    0 <= i < expected.len() ==> front[i] == reply->Ok_0.words@[i]);
            }
        },
        CheckView::NotANumber => {
            if reply is Ok && reply->Ok_0.words@.len() == 1 {
                lemma_no_number(reply->Ok_0.words@[0]);
            }
        },
        CheckView::Traps(text) => {
            if reply is Err {
                lemma_stands_in(text, reply->Err_0@);
            }
        },
        _ => {},
    }
}

/// A reply is accepted exactly if it is what the check asks for: the very words
/// that are expected, at every position; words that begin with those expected;
/// a number that is none; a count of bytes; a count that has grown by exactly
/// so much; an error whose message holds the text.  An error is a failure of
/// the call wherever it is not what is asked for, a result where a trap is
/// asked for is a missing trap, and any other result is a mismatch.
pub proof fn law_reply_is_accepted_if_wanted(
    check: Check,
    baseline: u32,
    reply: Reply,
    verdict: Result<(), Failure>,
)
    requires
        call_ensures(Check::judge, (&check, baseline, &reply), verdict),
    ensures
        verdict is Ok <==> is_wanted(as_written(check), baseline, reply),
        verdict is Err ==> verdict->Err_0 == (if reply is Err {
            Failure::Call
        } else if check is Traps {
            Failure::DidNotTrap
        } else {
            Failure::Mismatch
        }),
{
    lemma_accepted_is_wanted(check@, baseline, reply);
}

/// An equality check accepts one sequence of words and no other.
pub proof fn law_equality_accepts_one_reply(
    expected: Words,
    baseline: u32,
    first: Words,
    second: Words,
    verdict: Result<(), Failure>,
    other: Result<(), Failure>,
)
    requires
        call_ensures(
            Check::judge,
            (&Check::Equals(expected), baseline, &Ok::<Words, String>(first)),
            verdict,
        ),
        call_ensures(
            Check::judge,
            (&Check::Equals(expected), baseline, &Ok::<Words, String>(second)),
            other,
        ),
    ensures
        same_words(first.words@, expected.words@) ==> verdict is Ok,
        verdict is Ok && other is Ok ==> same_words(first.words@, second.words@),
{
    law_reply_is_accepted_if_wanted(Check::Equals(expected), baseline, Ok(first), verdict);
    law_reply_is_accepted_if_wanted(Check::Equals(expected), baseline, Ok(second), other);
}

/// A session hands out the call of the step it is at, as long as there is one.
/// It moves to the next step exactly if the reply is what the step asks for,
/// and stays where it is otherwise; the script never changes, and the baseline
/// is the last count of bytes that a baseline step was given.
pub proof fn law_session_moves_on_what_is_wanted(reply: Reply)
    ensures
        forall|session: &mut Session, verdict: Result<(), Failure>| #[trigger]
            call_ensures(Session::on_reply, (session, &reply), verdict) ==> {
                let step = session@.steps[session@.position];
                &&& verdict is Ok <==> is_wanted(step.check, session@.baseline, reply)
                &&& final(session)@.steps == session@.steps
                &&& verdict is Ok ==> final(session)@.position == session@.position + 1
                &&& verdict is Err ==> final(session)@.position == session@.position
                &&& verdict is Ok && step.check == CheckView::Baseline ==> final(session)@.baseline
                    == reply->Ok_0.words@[0]
                &&& verdict is Err || step.check != CheckView::Baseline
                    ==> final(session)@.baseline == session@.baseline
            },
        forall|session: Session, call: Option<&Call>| #[trigger]
            call_ensures(Session::next_call, (&session,), call) ==> {
                &&& call is Some <==> 0 <= session@.position < session@.steps.len()
                &&& call is Some ==> call->0@ == session@.steps[session@.position].call
            },
        forall|script: Script, session: Session| #[trigger]
            call_ensures(Session::new, (script,), session) ==> {
                &&& session@.steps == script@
                &&& session@.position == 0
            },
{
    assert forall|session: &mut Session, verdict: Result<(), Failure>| #[trigger]
        call_ensures(Session::on_reply, (session, &reply), verdict) implies (verdict is Ok
        <==> is_wanted(
        session@.steps[session@.position].check,
        session@.baseline,
        reply,
    )) by {
        lemma_accepted_is_wanted(
            session@.steps[session@.position].check,
            session@.baseline,
            reply,
        );
    }
}

/// A session that gets through its script was given, at every step, what that
/// step asks for: the expected words at each step that asks for words, the text
/// in the message of each trap, and so on.
pub proof fn law_passed_session_was_given_what_it_wants(
    steps: Seq<crate::session::StepView>,
    replies: Seq<Reply>,
)
    requires
        replies.len() == steps.len(),
        crate::session::session_after(SessionView::start(steps), replies).position == steps.len(),
    ensures
        forall|i: int|
            #![trigger steps[i]]
            #![trigger replies[i]]
            0 <= i < steps.len() ==> match steps[i].check {
                CheckView::Accept => replies[i] is Ok,
                CheckView::Equals(expected) => replies[i] is Ok && same_words(
                    replies[i]->Ok_0.words@,
                    expected,
                ),
                CheckView::Prefix(expected) => replies[i] is Ok
                    && replies[i]->Ok_0.words@.len() >= expected.len() && same_words(
                    replies[i]->Ok_0.words@.take(expected.len() as int),
                    expected,
                ),
                CheckView::NotANumber => replies[i] is Ok && replies[i]->Ok_0.words@.len() == 1
                    && is_no_number(replies[i]->Ok_0.words@[0]),
                CheckView::Baseline => replies[i] is Ok && replies[i]->Ok_0.words@.len() == 1,
                CheckView::Grown(_) => replies[i] is Ok && replies[i]->Ok_0.words@.len() == 1,
                CheckView::Traps(text) => replies[i] is Err && stands_in(
                    text,
                    replies[i]->Err_0@,
                ),
            },
{
    let session = SessionView::start(steps);
    crate::session::law_session_advances_with_accepted_replies(session, replies);
    assert forall|i: int| 0 <= i < steps.len() implies is_wanted(
        #[trigger] steps[i].check,
        crate::session::session_after(session, replies.take(i)).baseline,
        replies[i],
    ) by {
        let before = crate::session::session_after(session, replies.take(i));
        assert(before.judge(replies[i]) is Ok);
        crate::session::lemma_accepted_take(session, replies, i);
        crate::session::law_session_advances_with_accepted_replies(session, replies.take(i));
        lemma_accepted_is_wanted(before.check(), before.baseline, replies[i]);
    }
}

/// Words are appended behind those that are there: a word as it is, and a
/// string as its length and then its characters, one by one.
pub proof fn law_words_are_appended(words: Words, word: i128, s: &str)
    ensures
        forall|empty: Words| #[trigger] call_ensures(Words::new, (), empty) ==> empty.words@.len()
            == 0,
        forall|same: Words| #[trigger]
            call_ensures(Words::copy, (&words,), same) ==> same_words(same.words@, words.words@),
        forall|more: Words| #[trigger]
            call_ensures(Words::word, (words, word), more) ==> {
                &&& more.words@.len() == words.words@.len() + 1
                &&& more.words@.last() == word
                &&& same_words(more.words@.drop_last(), words.words@)
            },
        forall|more: Words| #[trigger]
            call_ensures(Words::text, (words, s), more) ==> {
                let start = words.words@.len() as int;
                &&& more.words@.len() == start + 1 + s@.len()
                &&& same_words(more.words@.take(start), words.words@)
                &&& more.words@[start] == s@.len() as i128
                &&& forall|i: int|
                    0 <= i < s@.len() ==> more.words@[start + 1 + i] == #[trigger] s@[i] as i128
            },
{
}

/// What a check asks for, over mathematical values.
pub open spec fn as_written(check: Check) -> CheckView {
    match check {
        Check::Accept => CheckView::Accept,
        Check::Equals(words) => CheckView::Equals(words.words@),
        Check::Prefix(words) => CheckView::Prefix(words.words@),
        Check::NotANumber => CheckView::NotANumber,
        Check::Baseline => CheckView::Baseline,
        Check::Grown(by) => CheckView::Grown(by),
        Check::Traps(text) => CheckView::Traps(text@),
    }
}

/// `script` was extended to `after` by one step, and left as it was before that.
pub open spec fn extended(script: Script, after: Script) -> bool {
    &&& after@.len() == script@.len() + 1
    &&& forall|i: int| 0 <= i < script@.len() ==> #[trigger] after@[i] == script@[i]
}

/// A session that comes to a step makes the call that the step was written
/// with: the export, the words and whether handles are kept; the export that is
/// run; the handle that is dropped.  Its reply is judged by the check that the
/// step was written with, and an echo asks for its own words.
pub proof fn law_steps_are_made_as_written(
    name: &'static str,
    args: Words,
    check: Check,
    text: &'static str,
    handle: usize,
    session: Session,
    next: Option<&Call>,
)
    requires
        call_ensures(Session::next_call, (&session,), next),
    ensures
        forall|script: &mut Script|
            #![trigger call_ensures(Script::call, (script, name, args, check), ())]
            call_ensures(Script::call, (script, name, args, check), ()) ==> {
                &&& extended(*script, *final(script))
                &&& final(script)@.last().check == as_written(check)
                &&& session@.steps == final(script)@ && session@.position == script@.len() ==> (
                next matches Some(Call::Export { name: called, args: given, keep })
                    && called@ == name@ && same_words(given.words@, args.words@) && *keep)
            },
        forall|script: &mut Script|
            #![trigger call_ensures(Script::call_and_drop, (script, name, check), ())]
            call_ensures(Script::call_and_drop, (script, name, check), ()) ==> {
                &&& extended(*script, *final(script))
                &&& final(script)@.last().check == as_written(check)
                &&& session@.steps == final(script)@ && session@.position == script@.len() ==> (
                next matches Some(Call::Export { name: called, args: given, keep })
                    && called@ == name@ && given.words@.len() == 0 && !*keep)
            },
        forall|script: &mut Script|
            #![trigger call_ensures(Script::echo, (script, name, args), ())]
            call_ensures(Script::echo, (script, name, args), ()) ==> {
                &&& extended(*script, *final(script))
                &&& final(script)@.last().check == CheckView::Equals(args.words@)
                &&& session@.steps == final(script)@ && session@.position == script@.len() ==> (
                next matches Some(Call::Export { name: called, args: given, keep })
                    && called@ == name@ && same_words(given.words@, args.words@) && *keep)
            },
        forall|script: &mut Script|
            #![trigger call_ensures(Script::query, (script, name, args), ())]
            call_ensures(Script::query, (script, name, args), ()) ==> {
                &&& extended(*script, *final(script))
                &&& final(script)@.last().check == CheckView::Equals(args.words@)
                &&& session@.steps == final(script)@ && session@.position == script@.len() ==> (
                next matches Some(Call::Export { name: called, args: given, keep })
                    && called@ == name@ && given.words@.len() == 0 && *keep)
            },
        forall|script: &mut Script|
            #![trigger call_ensures(Script::trap, (script, name, text), ())]
            call_ensures(Script::trap, (script, name, text), ()) ==> {
                &&& extended(*script, *final(script))
                &&& final(script)@.last().check == CheckView::Traps(text@)
                &&& session@.steps == final(script)@ && session@.position == script@.len() ==> (
                next matches Some(Call::Run { name: called }) && called@ == name@)
            },
        forall|script: &mut Script|
            #![trigger call_ensures(Script::release, (script, handle), ())]
            call_ensures(Script::release, (script, handle), ()) ==> {
                &&& extended(*script, *final(script))
                &&& final(script)@.last().check == CheckView::Accept
                &&& session@.steps == final(script)@ && session@.position == script@.len() ==> (
                next matches Some(Call::Release { handle: dropped }) && *dropped == handle)
            },
{
}

/// A script that is appended to another is walked behind it, step by step.
pub proof fn law_appended_script_comes_behind(other: Script)
    ensures
        forall|script: &mut Script|
            #![trigger call_ensures(Script::append, (script, other), ())]
            call_ensures(Script::append, (script, other), ()) ==> {
                &&& final(script)@.len() == script@.len() + other@.len()
                &&& forall|i: int|
                    0 <= i < script@.len() ==> #[trigger] final(script)@[i] == script@[i]
                &&& forall|i: int|
                    0 <= i < other@.len() ==> final(script)@[script@.len() + i]
                        == #[trigger] other@[i]
            },
        forall|empty: Script| #[trigger] call_ensures(Script::new, (), empty) ==> empty@.len() == 0,
{
}

/// The message of a missing trap names the export, between two fixed texts.
pub proof fn law_missing_trap_names_the_export(name: &str, message: String)
    requires
        call_ensures(crate::session::did_not_trap_message, (name,), message),
    ensures
        message@ == "export `"@ + name@ + "` didn't trap"@,
{
}

} // verus!
