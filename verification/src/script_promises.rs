//! What a module that passes the conformance script was asked for, and what it
//! has answered.
use vstd::prelude::*;

use crate::session::{CallView, CheckView, Reply, Session, SessionView, StepView};

verus! {

/// The replies took a session through all of these steps.
pub open spec fn passed(steps: Seq<StepView>, replies: Seq<Reply>) -> bool {
    &&& replies.len() == steps.len()
    &&& crate::session::session_after(SessionView::start(steps), replies).position == steps.len()
}

/// The words of a string: its length, then its characters.
pub open spec fn string(s: Seq<char>) -> Seq<i128> {
    Seq::new(
        s.len() + 1,
        |i: int|
            if i == 0 {
                s.len() as i128
            } else {
                s[i - 1] as i128
            },
    )
}

/// The export was called with these words, and the handles in its result kept.
pub open spec fn called(step: StepView, name: Seq<char>, args: Seq<i128>) -> bool {
    &&& step.call is Export
    &&& step.call->Export_name == name
    &&& step.call->args =~= args
    &&& step.call->keep
}

/// The call was made and has returned.
pub open spec fn took(
    steps: Seq<StepView>,
    replies: Seq<Reply>,
    i: int,
    name: Seq<char>,
    args: Seq<i128>,
) -> bool {
    called(steps[i], name, args) && replies[i] is Ok
}

/// The call was made and has returned exactly these words.
pub open spec fn answered(
    steps: Seq<StepView>,
    replies: Seq<Reply>,
    i: int,
    name: Seq<char>,
    args: Seq<i128>,
    words: Seq<i128>,
) -> bool {
    called(steps[i], name, args) && replies[i] is Ok && replies[i]->Ok_0.words@ =~= words
}

/// The call was made and has returned words that begin with these.
pub open spec fn began(
    steps: Seq<StepView>,
    replies: Seq<Reply>,
    i: int,
    name: Seq<char>,
    args: Seq<i128>,
    words: Seq<i128>,
) -> bool {
    &&& called(steps[i], name, args)
    &&& replies[i] is Ok
    &&& replies[i]->Ok_0.words@.len() >= words.len()
    &&& replies[i]->Ok_0.words@.take(words.len() as int) =~= words
}

/// The call was made and has returned a number that is none.
pub open spec fn gave_no_number(
    steps: Seq<StepView>,
    replies: Seq<Reply>,
    i: int,
    name: Seq<char>,
    args: Seq<i128>,
) -> bool {
    &&& called(steps[i], name, args)
    &&& replies[i] is Ok
    &&& replies[i]->Ok_0.words@.len() == 1
    &&& crate::reply_promises::is_no_number(replies[i]->Ok_0.words@[0])
}

/// The call was made and has returned a count.
pub open spec fn counted(
    steps: Seq<StepView>,
    replies: Seq<Reply>,
    i: int,
    name: Seq<char>,
) -> bool {
    &&& called(steps[i], name, Seq::empty())
    &&& replies[i] is Ok
    &&& replies[i]->Ok_0.words@.len() == 1
}

/// The export was run and has failed with a message that holds the text.
pub open spec fn trapped(
    steps: Seq<StepView>,
    replies: Seq<Reply>,
    i: int,
    name: Seq<char>,
    text: Seq<char>,
) -> bool {
    &&& steps[i].call == (CallView::Run { name })
    &&& replies[i] is Err
    &&& crate::reply_promises::stands_in(text, replies[i]->Err_0@)
}

/// The kept handle was dropped.
pub open spec fn released(steps: Seq<StepView>, i: int, handle: usize) -> bool {
    steps[i].call == (CallView::Release { handle })
}

/// The export was called without arguments, the handles in its result dropped,
/// and its result begins with these words.
pub open spec fn dropped(
    steps: Seq<StepView>,
    replies: Seq<Reply>,
    i: int,
    name: Seq<char>,
    words: Seq<i128>,
) -> bool {
    &&& steps[i].call is Export
    &&& steps[i].call->Export_name == name
    &&& steps[i].call->args.len() == 0
    &&& !steps[i].call->keep
    &&& replies[i] is Ok
    &&& replies[i]->Ok_0.words@.len() >= words.len()
    &&& replies[i]->Ok_0.words@.take(words.len() as int) =~= words
}

/// Any integer type is asked for one and for both of its limits, and gives them
/// back.
pub proof fn law_integers_of_a_passing_module(
    name: Seq<char>,
    min: i128,
    max: i128,
    replies: Seq<Reply>,
)
    requires
        passed(crate::exports::integers_steps(name, min, max), replies),
    ensures
        ({
            let steps = crate::exports::integers_steps(name, min, max);
            &&& steps.len() == 3
            &&& answered(steps, replies, 0, name, seq![1i128], seq![1i128])
            &&& answered(steps, replies, 1, name, seq![min], seq![min])
            &&& answered(steps, replies, 2, name, seq![max], seq![max])
        }),
{
    crate::reply_promises::law_passed_session_was_given_what_it_wants(
        crate::exports::integers_steps(name, min, max),
        replies,
    );
}

/// The integer types are those of eight, sixteen, thirty-two and sixty-four
/// bits, without and with a sign, each with its own limits.
pub proof fn law_integers_have_their_limits()
    ensures
        ({
            let steps = crate::exports::scalars_steps();
            &&& steps.len() >= 24
            &&& steps.subrange(0, 3) == crate::exports::integers_steps("roundtrip_u8"@, 0, 0xff)
            &&& steps.subrange(3, 6) == crate::exports::integers_steps(
                "roundtrip_s8"@,
                (-0x80) as i128,
                0x7f,
            )
            &&& steps.subrange(6, 9) == crate::exports::integers_steps(
                "roundtrip_u16"@,
                0,
                0xffff,
            )
            &&& steps.subrange(9, 12) == crate::exports::integers_steps(
                "roundtrip_s16"@,
                (-0x8000) as i128,
                0x7fff,
            )
            &&& steps.subrange(12, 15) == crate::exports::integers_steps(
                "roundtrip_u32"@,
                0,
                0xffff_ffff,
            )
            &&& steps.subrange(15, 18) == crate::exports::integers_steps(
                "roundtrip_s32"@,
                (-0x8000_0000) as i128,
                0x7fff_ffff,
            )
            &&& steps.subrange(18, 21) == crate::exports::integers_steps(
                "roundtrip_u64"@,
                0,
                0xffff_ffff_ffff_ffff,
            )
            &&& steps.subrange(21, 24) == crate::exports::integers_steps(
                "roundtrip_s64"@,
                (-0x8000_0000_0000_0000) as i128,
                0x7fff_ffff_ffff_ffff,
            )
        }),
{
}

/// The whole script counts bytes, runs the module's own tests of its imports
/// and then all groups in order, with a second count of bytes before the last.
pub proof fn law_script_runs_all_groups()
    ensures
        ({
            let steps = crate::exports::test_steps();
            &&& steps.len() == 140
            &&& called(steps[0], "allocated_bytes"@, Seq::empty())
            &&& called(steps[1], "run_import_tests"@, Seq::empty())
            &&& steps[1].check == CheckView::Accept
            &&& steps.subrange(2, 42) == crate::exports::scalars_steps()
            &&& steps.subrange(42, 55) == crate::exports::records_steps()
            &&& steps.subrange(55, 69) == crate::exports::variants_steps()
            &&& steps.subrange(69, 76) == crate::exports::lists_steps()
            &&& steps.subrange(76, 85) == crate::exports::flavorful_steps()
            &&& steps.subrange(85, 94) == crate::exports::invalid_steps()
            &&& steps.subrange(94, 105) == crate::exports::buffers_steps()
            &&& called(steps[105], "allocated_bytes"@, Seq::empty())
            &&& steps.subrange(106, 140) == crate::exports::handles_steps()
        }),
{
}

/// A new session with the whole script is at its first step.
pub proof fn law_test_starts_the_script(session: Session)
    requires
        call_ensures(crate::exports::test, (), session),
    ensures
        session@.steps == crate::exports::test_steps(),
        session@.position == 0,
{
}

/// Of floating point numbers, characters and plain state: what a module that
/// passes was asked for, and what it has answered.
pub proof fn law_scalars_of_a_passing_module(replies: Seq<Reply>)
    requires
        passed(crate::exports::scalars_steps(), replies),
    ensures
        ({
            let steps = crate::exports::scalars_steps();
            &&& steps.len() == 40
            &&& answered(
                steps,
                replies,
                24,
                "multiple_results"@,
                Seq::<i128>::empty(),
                seq![100i128, 200],
            )
            &&& answered(
                steps,
                replies,
                25,
                "roundtrip_f32"@,
                seq![0x3ff0_0000_0000_0000i128],
                seq![0x3ff0_0000_0000_0000i128],
            )
            &&& answered(
                steps,
                replies,
                26,
                "roundtrip_f32"@,
                seq![0x7ff0_0000_0000_0000i128],
                seq![0x7ff0_0000_0000_0000i128],
            )
            &&& answered(
                steps,
                replies,
                27,
                "roundtrip_f32"@,
                seq![0xfff0_0000_0000_0000i128],
                seq![0xfff0_0000_0000_0000i128],
            )
            &&& gave_no_number(
                steps,
                replies,
                28,
                "roundtrip_f32"@,
                seq![0x7ff8_0000_0000_0000i128],
            )
            &&& answered(
                steps,
                replies,
                29,
                "roundtrip_f64"@,
                seq![0x3ff0_0000_0000_0000i128],
                seq![0x3ff0_0000_0000_0000i128],
            )
            &&& answered(
                steps,
                replies,
                30,
                "roundtrip_f64"@,
                seq![0x7ff0_0000_0000_0000i128],
                seq![0x7ff0_0000_0000_0000i128],
            )
            &&& answered(
                steps,
                replies,
                31,
                "roundtrip_f64"@,
                seq![0xfff0_0000_0000_0000i128],
                seq![0xfff0_0000_0000_0000i128],
            )
            &&& gave_no_number(
                steps,
                replies,
                32,
                "roundtrip_f64"@,
                seq![0x7ff8_0000_0000_0000i128],
            )
            &&& answered(steps, replies, 33, "roundtrip_char"@, seq![0x61i128], seq![0x61i128])
            &&& answered(steps, replies, 34, "roundtrip_char"@, seq![0x20i128], seq![0x20i128])
            &&& answered(
                steps,
                replies,
                35,
                "roundtrip_char"@,
                seq![0x1f6a9i128],
                seq![0x1f6a9i128],
            )
            &&& took(steps, replies, 36, "set_scalar"@, seq![2i128])
            &&& answered(steps, replies, 37, "get_scalar"@, Seq::<i128>::empty(), seq![2i128])
            &&& took(steps, replies, 38, "set_scalar"@, seq![4i128])
            &&& answered(steps, replies, 39, "get_scalar"@, Seq::<i128>::empty(), seq![4i128])
        }),
{
    crate::reply_promises::law_passed_session_was_given_what_it_wants(
        crate::exports::scalars_steps(),
        replies,
    );
}

/// Of tuples, flags and records: what a module that
/// passes was asked for, and what it has answered.
pub proof fn law_records_of_a_passing_module(replies: Seq<Reply>)
    requires
        passed(crate::exports::records_steps(), replies),
    ensures
        ({
            let steps = crate::exports::records_steps();
            &&& steps.len() == 13
            &&& answered(steps, replies, 0, "swap_tuple"@, seq![1i128, 2], seq![2i128, 1])
            &&& answered(steps, replies, 1, "roundtrip_flags1"@, seq![1i128], seq![1i128])
            &&& answered(steps, replies, 2, "roundtrip_flags1"@, seq![0i128], seq![0i128])
            &&& answered(steps, replies, 3, "roundtrip_flags1"@, seq![2i128], seq![2i128])
            &&& answered(steps, replies, 4, "roundtrip_flags1"@, seq![3i128], seq![3i128])
            &&& answered(steps, replies, 5, "roundtrip_flags2"@, seq![1i128], seq![1i128])
            &&& answered(steps, replies, 6, "roundtrip_flags2"@, seq![0i128], seq![0i128])
            &&& answered(steps, replies, 7, "roundtrip_flags2"@, seq![2i128], seq![2i128])
            &&& answered(steps, replies, 8, "roundtrip_flags2"@, seq![5i128], seq![5i128])
            &&& answered(steps, replies, 9, "roundtrip_record1"@, seq![8i128, 0], seq![8i128, 0])
            &&& answered(steps, replies, 10, "roundtrip_record1"@, seq![0i128, 3], seq![0i128, 3])
            &&& answered(steps, replies, 11, "tuple0"@, Seq::<i128>::empty(), Seq::<i128>::empty())
            &&& answered(steps, replies, 12, "tuple1"@, seq![1i128], seq![1i128])
        }),
{
    crate::reply_promises::law_passed_session_was_given_what_it_wants(
        crate::exports::records_steps(),
        replies,
    );
}

/// Of options, results, enumerations, booleans and variants: what a module that
/// passes was asked for, and what it has answered.
pub proof fn law_variants_of_a_passing_module(replies: Seq<Reply>)
    requires
        passed(crate::exports::variants_steps(), replies),
    ensures
        ({
            let steps = crate::exports::variants_steps();
            &&& steps.len() == 14
            &&& answered(
                steps,
                replies,
                0,
                "roundtrip_option"@,
                seq![1i128, 0x3ff0_0000_0000_0000],
                seq![1i128, 1],
            )
            &&& answered(steps, replies, 1, "roundtrip_option"@, seq![0i128], seq![0i128])
            &&& answered(
                steps,
                replies,
                2,
                "roundtrip_option"@,
                seq![1i128, 0x4000_0000_0000_0000],
                seq![1i128, 2],
            )
            &&& answered(
                steps,
                replies,
                3,
                "roundtrip_result"@,
                seq![0i128, 2],
                seq![0i128, 0x4000_0000_0000_0000],
            )
            &&& answered(
                steps,
                replies,
                4,
                "roundtrip_result"@,
                seq![0i128, 4],
                seq![0i128, 0x4010_0000_0000_0000],
            )
            &&& answered(
                steps,
                replies,
                5,
                "roundtrip_result"@,
                seq![1i128, 0x4015_3333_3333_3333],
                seq![1i128, 5],
            )
            &&& answered(steps, replies, 6, "roundtrip_enum"@, seq![0i128], seq![0i128])
            &&& answered(steps, replies, 7, "roundtrip_enum"@, seq![1i128], seq![1i128])
            &&& answered(steps, replies, 8, "invert_bool"@, seq![1i128], seq![0i128])
            &&& answered(steps, replies, 9, "invert_bool"@, seq![0i128], seq![1i128])
            &&& answered(
                steps,
                replies,
                10,
                "variant_casts"@,
                seq![0i128, 1, 0, 2, 0, 3, 0, 4, 0, 5, 0, 0x4018_0000_0000_0000],
                seq![0i128, 1, 0, 2, 0, 3, 0, 4, 0, 5, 0, 0x4018_0000_0000_0000],
            )
            &&& answered(
                steps,
                replies,
                11,
                "variant_casts"@,
                seq![
                    1i128, 1, 1, 0x4000_0000_0000_0000, 1, 0x4008_0000_0000_0000, 1,
                    0x4010_0000_0000_0000, 1, 0x4014_0000_0000_0000, 1, 0x4018_0000_0000_0000,
                ],
                seq![
                    1i128, 1, 1, 0x4000_0000_0000_0000, 1, 0x4008_0000_0000_0000, 1,
                    0x4010_0000_0000_0000, 1, 0x4014_0000_0000_0000, 1, 0x4018_0000_0000_0000,
                ],
            )
            &&& answered(
                steps,
                replies,
                12,
                "variant_zeros"@,
                seq![0i128, 1, 0, 2, 0, 0x4008_0000_0000_0000, 0, 0x4010_0000_0000_0000],
                seq![0i128, 1, 0, 2, 0, 0x4008_0000_0000_0000, 0, 0x4010_0000_0000_0000],
            )
            &&& took(steps, replies, 13, "variant_typedefs"@, seq![0i128, 0, 1])
        }),
{
    crate::reply_promises::law_passed_session_was_given_what_it_wants(
        crate::exports::variants_steps(),
        replies,
    );
}

/// Of lists and strings: what a module that
/// passes was asked for, and what it has answered.
pub proof fn law_lists_of_a_passing_module(replies: Seq<Reply>)
    requires
        passed(crate::exports::lists_steps(), replies),
    ensures
        ({
            let steps = crate::exports::lists_steps();
            &&& steps.len() == 7
            &&& took(steps, replies, 0, "list_param"@, seq![4i128, 1, 2, 3, 4])
            &&& took(steps, replies, 1, "list_param2"@, Seq::<i128>::empty() + string("foo"@))
            &&& took(
                steps,
                replies,
                2,
                "list_param3"@,
                seq![3i128] + string("foo"@) + string("bar"@) + string("baz"@),
            )
            &&& took(
                steps,
                replies,
                3,
                "list_param4"@,
                seq![2i128, 2] + string("foo"@) + string("bar"@) + seq![1i128] + string("baz"@),
            )
            &&& answered(
                steps,
                replies,
                4,
                "list_result"@,
                Seq::<i128>::empty(),
                seq![5i128, 1, 2, 3, 4, 5],
            )
            &&& answered(
                steps,
                replies,
                5,
                "list_result2"@,
                Seq::<i128>::empty(),
                Seq::<i128>::empty() + string("hello!"@),
            )
            &&& answered(
                steps,
                replies,
                6,
                "list_result3"@,
                Seq::<i128>::empty(),
                seq![2i128] + string("hello,"@) + string("world!"@),
            )
        }),
{
    crate::reply_promises::law_passed_session_was_given_what_it_wants(
        crate::exports::lists_steps(),
        replies,
    );
}

/// Of lists and strings inside records and variants: what a module that
/// passes was asked for, and what it has answered.
pub proof fn law_flavorful_of_a_passing_module(replies: Seq<Reply>)
    requires
        passed(crate::exports::flavorful_steps(), replies),
    ensures
        ({
            let steps = crate::exports::flavorful_steps();
            &&& steps.len() == 9
            &&& took(
                steps,
                replies,
                0,
                "list_in_record1"@,
                Seq::<i128>::empty() + string("list_in_record1"@),
            )
            &&& answered(
                steps,
                replies,
                1,
                "list_in_record2"@,
                Seq::<i128>::empty(),
                Seq::<i128>::empty() + string("list_in_record2"@),
            )
            &&& answered(
                steps,
                replies,
                2,
                "list_in_record3"@,
                Seq::<i128>::empty() + string("list_in_record3 input"@),
                Seq::<i128>::empty() + string("list_in_record3 output"@),
            )
            &&& answered(
                steps,
                replies,
                3,
                "list_in_record4"@,
                Seq::<i128>::empty() + string("input4"@),
                Seq::<i128>::empty() + string("result4"@),
            )
            &&& took(
                steps,
                replies,
                4,
                "list_in_variant1"@,
                seq![
                    1i128,
                ] + string("foo"@) + seq![1i128] + string("bar"@) + seq![0i128] + string("baz"@),
            )
            &&& answered(
                steps,
                replies,
                5,
                "list_in_variant2"@,
                Seq::<i128>::empty(),
                seq![1i128] + string("list_in_variant2"@),
            )
            &&& answered(
                steps,
                replies,
                6,
                "list_in_variant3"@,
                seq![1i128] + string("input3"@),
                seq![1i128] + string("output3"@),
            )
            &&& began(steps, replies, 7, "errno_result"@, Seq::<i128>::empty(), seq![1i128])
            &&& answered(
                steps,
                replies,
                8,
                "list_typedefs"@,
                Seq::<i128>::empty() + string("typedef1"@) + seq![1i128] + string("typedef2"@),
                Seq::<i128>::empty() + string("typedef3"@) + seq![1i128] + string("typedef4"@),
            )
        }),
{
    crate::reply_promises::law_passed_session_was_given_what_it_wants(
        crate::exports::flavorful_steps(),
        replies,
    );
}

/// Of invalid values: what a module that
/// passes was asked for, and what it has answered.
pub proof fn law_invalid_of_a_passing_module(replies: Seq<Reply>)
    requires
        passed(crate::exports::invalid_steps(), replies),
    ensures
        ({
            let steps = crate::exports::invalid_steps();
            &&& steps.len() == 9
            &&& trapped(steps, replies, 0, "invalid_bool"@, "invalid discriminant for `bool`"@)
            &&& trapped(steps, replies, 1, "invalid_u8"@, "out-of-bounds integer conversion"@)
            &&& trapped(steps, replies, 2, "invalid_s8"@, "out-of-bounds integer conversion"@)
            &&& trapped(steps, replies, 3, "invalid_u16"@, "out-of-bounds integer conversion"@)
            &&& trapped(steps, replies, 4, "invalid_s16"@, "out-of-bounds integer conversion"@)
            &&& trapped(steps, replies, 5, "invalid_char"@, "char value out of valid range"@)
            &&& trapped(steps, replies, 6, "invalid_e1"@, "invalid discriminant for `E1`"@)
            &&& trapped(steps, replies, 7, "invalid_handle"@, "invalid handle index"@)
            &&& trapped(steps, replies, 8, "invalid_handle_close"@, "invalid handle index"@)
        }),
{
    crate::reply_promises::law_passed_session_was_given_what_it_wants(
        crate::exports::invalid_steps(),
        replies,
    );
}

/// Of buffers: what a module that
/// passes was asked for, and what it has answered.
pub proof fn law_buffers_of_a_passing_module(replies: Seq<Reply>)
    requires
        passed(crate::exports::buffers_steps(), replies),
    ensures
        ({
            let steps = crate::exports::buffers_steps();
            &&& steps.len() == 11
            &&& answered(
                steps,
                replies,
                0,
                "buffer_u8"@,
                seq![1i128, 0, 10],
                seq![3i128, 10, 1, 2, 3, 0, 0, 0, 0, 0, 0, 0],
            )
            &&& answered(
                steps,
                replies,
                1,
                "buffer_u32"@,
                seq![1i128, 0, 10],
                seq![3i128, 10, 1, 2, 3, 0, 0, 0, 0, 0, 0, 0],
            )
            &&& began(steps, replies, 2, "buffer_bool"@, seq![0i128, 0], seq![0i128])
            &&& began(steps, replies, 3, "buffer_string"@, seq![0i128, 0], seq![0i128])
            &&& began(steps, replies, 4, "buffer_list_bool"@, seq![0i128, 0], seq![0i128])
            &&& answered(
                steps,
                replies,
                5,
                "buffer_bool"@,
                seq![3i128, 1, 0, 1, 4],
                seq![3i128, 3, 0, 1, 0],
            )
            &&& answered(
                steps,
                replies,
                6,
                "buffer_string"@,
                seq![3i128] + string("foo"@) + string("bar"@) + string("baz"@) + seq![3i128],
                seq![3i128, 3] + string("FOO"@) + string("BAR"@) + string("BAZ"@),
            )
            &&& answered(
                steps,
                replies,
                7,
                "buffer_list_bool"@,
                seq![2i128, 3, 1, 0, 1, 2, 0, 0, 4],
                seq![2i128, 2, 3, 0, 1, 0, 2, 1, 1],
            )
            &&& took(steps, replies, 8, "buffer_mutable1"@, seq![1i128, 5, 1, 0, 1, 1, 0])
            &&& began(
                steps,
                replies,
                9,
                "buffer_mutable2"@,
                seq![1i128, 10],
                seq![4i128, 10, 1, 2, 3, 4],
            )
            &&& answered(
                steps,
                replies,
                10,
                "buffer_mutable3"@,
                seq![1i128, 10],
                seq![3i128, 3, 0, 1, 0],
            )
        }),
{
    crate::reply_promises::law_passed_session_was_given_what_it_wants(
        crate::exports::buffers_steps(),
        replies,
    );
}

/// Of handles: what a module that
/// passes was asked for, and what it has answered.
pub proof fn law_handles_of_a_passing_module(replies: Seq<Reply>)
    requires
        passed(crate::exports::handles_steps(), replies),
    ensures
        ({
            let steps = crate::exports::handles_steps();
            &&& steps.len() == 34
            &&& counted(steps, replies, 0, "allocated_bytes"@)
            &&& answered(
                steps,
                replies,
                1,
                "wasm_state_create"@,
                Seq::<i128>::empty(),
                seq![0i128],
            )
            &&& answered(steps, replies, 2, "wasm_state_get"@, seq![0i128], seq![100i128])
            &&& answered(
                steps,
                replies,
                3,
                "wasm_state2_saw_close"@,
                Seq::<i128>::empty(),
                seq![0i128],
            )
            &&& answered(
                steps,
                replies,
                4,
                "wasm_state2_create"@,
                Seq::<i128>::empty(),
                seq![1i128],
            )
            &&& answered(
                steps,
                replies,
                5,
                "wasm_state2_saw_close"@,
                Seq::<i128>::empty(),
                seq![0i128],
            )
            &&& released(steps, 6, 1)
            &&& answered(
                steps,
                replies,
                7,
                "wasm_state2_saw_close"@,
                Seq::<i128>::empty(),
                seq![1i128],
            )
            &&& answered(
                steps,
                replies,
                8,
                "wasm_state_create"@,
                Seq::<i128>::empty(),
                seq![2i128],
            )
            &&& answered(
                steps,
                replies,
                9,
                "wasm_state2_create"@,
                Seq::<i128>::empty(),
                seq![3i128],
            )
            &&& answered(steps, replies, 10, "two_wasm_states"@, seq![2i128, 3], seq![4i128, 5])
            &&& released(steps, 11, 3)
            &&& released(steps, 12, 2)
            &&& took(steps, replies, 13, "wasm_state2_param_record"@, seq![5i128])
            &&& took(steps, replies, 14, "wasm_state2_param_tuple"@, seq![5i128])
            &&& took(steps, replies, 15, "wasm_state2_param_option"@, seq![1i128, 5])
            &&& took(steps, replies, 16, "wasm_state2_param_option"@, seq![0i128])
            &&& took(steps, replies, 17, "wasm_state2_param_result"@, seq![0i128, 5])
            &&& took(steps, replies, 18, "wasm_state2_param_result"@, seq![1i128, 2])
            &&& took(steps, replies, 19, "wasm_state2_param_variant"@, seq![0i128, 5])
            &&& took(steps, replies, 20, "wasm_state2_param_variant"@, seq![1i128, 2])
            &&& took(steps, replies, 21, "wasm_state2_param_list"@, seq![0i128])
            &&& took(steps, replies, 22, "wasm_state2_param_list"@, seq![1i128, 5])
            &&& took(steps, replies, 23, "wasm_state2_param_list"@, seq![2i128, 5, 5])
            &&& dropped(steps, replies, 24, "wasm_state2_result_record"@, Seq::<i128>::empty())
            &&& dropped(steps, replies, 25, "wasm_state2_result_tuple"@, Seq::<i128>::empty())
            &&& dropped(steps, replies, 26, "wasm_state2_result_option"@, seq![1i128])
            &&& dropped(steps, replies, 27, "wasm_state2_result_result"@, seq![0i128])
            &&& dropped(steps, replies, 28, "wasm_state2_result_variant"@, Seq::<i128>::empty())
            &&& dropped(steps, replies, 29, "wasm_state2_result_list"@, Seq::<i128>::empty())
            &&& released(steps, 30, 5)
            &&& released(steps, 31, 4)
            &&& released(steps, 32, 0)
            &&& counted(steps, replies, 33, "allocated_bytes"@)
        }),
{
    crate::reply_promises::law_passed_session_was_given_what_it_wants(
        crate::exports::handles_steps(),
        replies,
    );
}

} // verus!
