//! The conformance script: every call that is made of a module under test, in order, with the reply
//! that is expected of it.
//!
//! The words of arguments and results are laid out as [`session`](crate::session) says.
use crate::session::{
    Check, CheckView, Reply, Script, Session, SessionView, StepView, TextWords, Words, INFINITY,
};
use vstd::prelude::*;

verus! {

/// The word of the boolean `false`.
pub const FALSE: i128 = 0;

/// The word of the boolean `true`.
pub const TRUE: i128 = 1;

/// The case of an option without a value.
pub const NONE: i128 = 0;

/// The case of an option with a value.
pub const SOME: i128 = 1;

/// The case of a result that holds a value.
pub const OK: i128 = 0;

/// The case of a result that holds an error.
pub const ERR: i128 = 1;

/// The first case of a variant or an enumeration.
pub const CASE_A: i128 = 0;

/// The second case of a variant or an enumeration.
pub const CASE_B: i128 = 1;

/// No flag of a set.
pub const NO_FLAGS: i128 = 0;

/// The flag `A` of the first set of flags, its lowest bit.
pub const F1_A: i128 = 1;

/// The flag `B` of the first set of flags.
pub const F1_B: i128 = 2;

/// Both flags of the first set.
pub const F1_A_B: i128 = 3;

/// The flag `C` of the second set of flags, its lowest bit.
pub const F2_C: i128 = 1;

/// The flag `D` of the second set of flags.
pub const F2_D: i128 = 2;

/// The flags `C` and `E` of the second set, its lowest and its third bit.
pub const F2_C_E: i128 = 5;

/// The character `a`.
pub const CHAR_A: i128 = 0x61;

/// The space character.
pub const CHAR_SPACE: i128 = 0x20;

/// The character of a triangular flag on a post, which lies outside the basic plane.
pub const CHAR_FLAG: i128 = 0x1f6a9;

/// The bits of double precision negative infinity.
pub const NEG_INFINITY: i128 = 0xfff0_0000_0000_0000;

/// The bits of a double precision value that is not a number.
pub const NAN: i128 = 0x7ff8_0000_0000_0000;

/// The bits of double precision one.
pub const FLOAT_1: i128 = 0x3ff0_0000_0000_0000;

/// The bits of double precision two.
pub const FLOAT_2: i128 = 0x4000_0000_0000_0000;

/// The bits of double precision three.
pub const FLOAT_3: i128 = 0x4008_0000_0000_0000;

/// The bits of double precision four.
pub const FLOAT_4: i128 = 0x4010_0000_0000_0000;

/// The bits of double precision five.
pub const FLOAT_5: i128 = 0x4014_0000_0000_0000;

/// The bits of double precision five and three tenths.
pub const FLOAT_5_3: i128 = 0x4015_3333_3333_3333;

/// The bits of double precision six.
pub const FLOAT_6: i128 = 0x4018_0000_0000_0000;

/// No words at all.
pub open spec fn no_words() -> Seq<i128> {
    Seq::empty()
}

/// The given words.
fn words(list: Vec<i128>) -> (ret: Words)
    ensures
        ret@ == list@,
{
    Words { words: list }
}

/// An integer type: one, the smallest and the largest value come back as they are.
pub open spec fn integers_steps(name: Seq<char>, min: i128, max: i128) -> Seq<StepView> {
    seq![
        StepView::echo(name, seq![1i128]),
        StepView::echo(name, seq![min]),
        StepView::echo(name, seq![max]),
    ]
}

/// Scripts [`integers_steps`].
fn integers(name: &'static str, min: i128, max: i128) -> (ret: Script)
    ensures
        ret@ == integers_steps(name@, min, max),
{
    let mut s = Script::new();
    s.echo(name, words(vec![1]));
    s.echo(name, words(vec![min]));
    s.echo(name, words(vec![max]));
    assert(s@ =~~= integers_steps(name@, min, max));
    s
}

/// Integers, floating point numbers, characters and plain state.
pub open spec fn scalars_steps() -> Seq<StepView> {
    integers_steps("roundtrip_u8"@, 0, u8::MAX as i128)
        + integers_steps("roundtrip_s8"@, i8::MIN as i128, i8::MAX as i128)
        + integers_steps("roundtrip_u16"@, 0, u16::MAX as i128)
        + integers_steps("roundtrip_s16"@, i16::MIN as i128, i16::MAX as i128)
        + integers_steps("roundtrip_u32"@, 0, u32::MAX as i128)
        + integers_steps("roundtrip_s32"@, i32::MIN as i128, i32::MAX as i128)
        + integers_steps("roundtrip_u64"@, 0, u64::MAX as i128)
        + integers_steps("roundtrip_s64"@, i64::MIN as i128, i64::MAX as i128)
        + seq![
        StepView::query("multiple_results"@, seq![100i128, 200]),
        StepView::echo("roundtrip_f32"@, seq![FLOAT_1]),
        StepView::echo("roundtrip_f32"@, seq![INFINITY]),
        StepView::echo("roundtrip_f32"@, seq![NEG_INFINITY]),
        StepView::call("roundtrip_f32"@, seq![NAN], CheckView::NotANumber),
        StepView::echo("roundtrip_f64"@, seq![FLOAT_1]),
        StepView::echo("roundtrip_f64"@, seq![INFINITY]),
        StepView::echo("roundtrip_f64"@, seq![NEG_INFINITY]),
        StepView::call("roundtrip_f64"@, seq![NAN], CheckView::NotANumber),
        StepView::echo("roundtrip_char"@, seq![CHAR_A]),
        StepView::echo("roundtrip_char"@, seq![CHAR_SPACE]),
        StepView::echo("roundtrip_char"@, seq![CHAR_FLAG]),
        StepView::call("set_scalar"@, seq![2i128], CheckView::Accept),
        StepView::query("get_scalar"@, seq![2i128]),
        StepView::call("set_scalar"@, seq![4i128], CheckView::Accept),
        StepView::query("get_scalar"@, seq![4i128]),
    ]
}

/// Scripts [`scalars_steps`].
pub fn scalars() -> (ret: Script)
    ensures
        ret@ == scalars_steps(),
{
    let mut ret = integers("roundtrip_u8", 0, u8::MAX as i128);
    ret.append(integers("roundtrip_s8", i8::MIN as i128, i8::MAX as i128));
    ret.append(integers("roundtrip_u16", 0, u16::MAX as i128));
    ret.append(integers("roundtrip_s16", i16::MIN as i128, i16::MAX as i128));
    ret.append(integers("roundtrip_u32", 0, u32::MAX as i128));
    ret.append(integers("roundtrip_s32", i32::MIN as i128, i32::MAX as i128));
    ret.append(integers("roundtrip_u64", 0, u64::MAX as i128));
    ret.append(integers("roundtrip_s64", i64::MIN as i128, i64::MAX as i128));
    let mut s = Script::new();
    s.query("multiple_results", words(vec![100, 200]));
    s.echo("roundtrip_f32", words(vec![FLOAT_1]));
    s.echo("roundtrip_f32", words(vec![INFINITY]));
    s.echo("roundtrip_f32", words(vec![NEG_INFINITY]));
    s.call("roundtrip_f32", words(vec![NAN]), Check::NotANumber);
    s.echo("roundtrip_f64", words(vec![FLOAT_1]));
    s.echo("roundtrip_f64", words(vec![INFINITY]));
    s.echo("roundtrip_f64", words(vec![NEG_INFINITY]));
    s.call("roundtrip_f64", words(vec![NAN]), Check::NotANumber);
    s.echo("roundtrip_char", words(vec![CHAR_A]));
    s.echo("roundtrip_char", words(vec![CHAR_SPACE]));
    s.echo("roundtrip_char", words(vec![CHAR_FLAG]));
    s.call("set_scalar", words(vec![2]), Check::Accept);
    s.query("get_scalar", words(vec![2]));
    s.call("set_scalar", words(vec![4]), Check::Accept);
    s.query("get_scalar", words(vec![4]));
    ret.append(s);
    assert(ret@ =~~= scalars_steps());
    ret
}

/// Tuples, flags and records.
pub open spec fn records_steps() -> Seq<StepView> {
    seq![
        StepView::call("swap_tuple"@, seq![1i128, 2], CheckView::Equals(seq![2i128, 1])),
        StepView::echo("roundtrip_flags1"@, seq![F1_A]),
        StepView::echo("roundtrip_flags1"@, seq![NO_FLAGS]),
        StepView::echo("roundtrip_flags1"@, seq![F1_B]),
        StepView::echo("roundtrip_flags1"@, seq![F1_A_B]),
        StepView::echo("roundtrip_flags2"@, seq![F2_C]),
        StepView::echo("roundtrip_flags2"@, seq![NO_FLAGS]),
        StepView::echo("roundtrip_flags2"@, seq![F2_D]),
        StepView::echo("roundtrip_flags2"@, seq![F2_C_E]),
        StepView::echo("roundtrip_record1"@, seq![8, NO_FLAGS]),
        StepView::echo("roundtrip_record1"@, seq![0, F1_A_B]),
        StepView::echo("tuple0"@, no_words()),
        StepView::echo("tuple1"@, seq![1i128]),
    ]
}

/// Scripts [`records_steps`].
pub fn records() -> (ret: Script)
    ensures
        ret@ == records_steps(),
{
    let mut s = Script::new();
    s.call("swap_tuple", words(vec![1, 2]), Check::Equals(words(vec![2, 1])));
    s.echo("roundtrip_flags1", words(vec![F1_A]));
    s.echo("roundtrip_flags1", words(vec![NO_FLAGS]));
    s.echo("roundtrip_flags1", words(vec![F1_B]));
    s.echo("roundtrip_flags1", words(vec![F1_A_B]));
    s.echo("roundtrip_flags2", words(vec![F2_C]));
    s.echo("roundtrip_flags2", words(vec![NO_FLAGS]));
    s.echo("roundtrip_flags2", words(vec![F2_D]));
    s.echo("roundtrip_flags2", words(vec![F2_C_E]));
    s.echo("roundtrip_record1", words(vec![8, NO_FLAGS]));
    s.echo("roundtrip_record1", words(vec![0, F1_A_B]));
    s.echo("tuple0", Words::new());
    s.echo("tuple1", words(vec![1]));
    assert(s@ =~~= records_steps());
    s
}

/// Options, results, enumerations, booleans and variants.
pub open spec fn variants_steps() -> Seq<StepView> {
    seq![
        StepView::call("roundtrip_option"@, seq![SOME, FLOAT_1], CheckView::Equals(seq![SOME, 1])),
        StepView::call("roundtrip_option"@, seq![NONE], CheckView::Equals(seq![NONE])),
        StepView::call("roundtrip_option"@, seq![SOME, FLOAT_2], CheckView::Equals(seq![SOME, 2])),
        StepView::call("roundtrip_result"@, seq![OK, 2], CheckView::Equals(seq![OK, FLOAT_2])),
        StepView::call("roundtrip_result"@, seq![OK, 4], CheckView::Equals(seq![OK, FLOAT_4])),
        StepView::call("roundtrip_result"@, seq![ERR, FLOAT_5_3], CheckView::Equals(seq![ERR, 5])),
        StepView::echo("roundtrip_enum"@, seq![CASE_A]),
        StepView::echo("roundtrip_enum"@, seq![CASE_B]),
        StepView::call("invert_bool"@, seq![TRUE], CheckView::Equals(seq![FALSE])),
        StepView::call("invert_bool"@, seq![FALSE], CheckView::Equals(seq![TRUE])),
        StepView::echo(
            "variant_casts"@,
            seq![CASE_A, 1, CASE_A, 2, CASE_A, 3, CASE_A, 4, CASE_A, 5, CASE_A, FLOAT_6],
        ),
        StepView::echo(
            "variant_casts"@,
            seq![
                CASE_B, 1, CASE_B, FLOAT_2, CASE_B, FLOAT_3, CASE_B, FLOAT_4, CASE_B, FLOAT_5,
                CASE_B, FLOAT_6,
            ],
        ),
        StepView::echo(
            "variant_zeros"@,
            seq![CASE_A, 1, CASE_A, 2, CASE_A, FLOAT_3, CASE_A, FLOAT_4],
        ),
        StepView::call("variant_typedefs"@, seq![NONE, FALSE, ERR], CheckView::Accept),
    ]
}

/// Scripts [`variants_steps`].
pub fn variants() -> (ret: Script)
    ensures
        ret@ == variants_steps(),
{
    let mut s = Script::new();
    s.call("roundtrip_option", words(vec![SOME, FLOAT_1]), Check::Equals(words(vec![SOME, 1])));
    s.call("roundtrip_option", words(vec![NONE]), Check::Equals(words(vec![NONE])));
    s.call("roundtrip_option", words(vec![SOME, FLOAT_2]), Check::Equals(words(vec![SOME, 2])));
    s.call("roundtrip_result", words(vec![OK, 2]), Check::Equals(words(vec![OK, FLOAT_2])));
    s.call("roundtrip_result", words(vec![OK, 4]), Check::Equals(words(vec![OK, FLOAT_4])));
    s.call("roundtrip_result", words(vec![ERR, FLOAT_5_3]), Check::Equals(words(vec![ERR, 5])));
    s.echo("roundtrip_enum", words(vec![CASE_A]));
    s.echo("roundtrip_enum", words(vec![CASE_B]));
    s.call("invert_bool", words(vec![TRUE]), Check::Equals(words(vec![FALSE])));
    s.call("invert_bool", words(vec![FALSE]), Check::Equals(words(vec![TRUE])));
    s.echo(
        "variant_casts",
        words(vec![CASE_A, 1, CASE_A, 2, CASE_A, 3, CASE_A, 4, CASE_A, 5, CASE_A, FLOAT_6]),
    );
    s.echo(
        "variant_casts",
        words(
            vec![
                CASE_B, 1, CASE_B, FLOAT_2, CASE_B, FLOAT_3, CASE_B, FLOAT_4, CASE_B, FLOAT_5,
                CASE_B, FLOAT_6,
            ],
        ),
    );
    s.echo("variant_zeros", words(vec![CASE_A, 1, CASE_A, 2, CASE_A, FLOAT_3, CASE_A, FLOAT_4]));
    s.call("variant_typedefs", words(vec![NONE, FALSE, ERR]), Check::Accept);
    assert(s@ =~~= variants_steps());
    s
}

/// Lists and strings.
pub open spec fn lists_steps() -> Seq<StepView> {
    seq![
        StepView::call("list_param"@, seq![4i128, 1, 2, 3, 4], CheckView::Accept),
        StepView::call("list_param2"@, no_words().text("foo"@), CheckView::Accept),
        StepView::call(
            "list_param3"@,
            seq![3i128].text("foo"@).text("bar"@).text("baz"@),
            CheckView::Accept,
        ),
        StepView::call(
            "list_param4"@,
            seq![2i128, 2].text("foo"@).text("bar"@).push(1).text("baz"@),
            CheckView::Accept,
        ),
        StepView::query("list_result"@, seq![5i128, 1, 2, 3, 4, 5]),
        StepView::query("list_result2"@, no_words().text("hello!"@)),
        StepView::query("list_result3"@, seq![2i128].text("hello,"@).text("world!"@)),
    ]
}

/// Scripts [`lists_steps`].
pub fn lists() -> (ret: Script)
    ensures
        ret@ == lists_steps(),
{
    let mut s = Script::new();
    s.call("list_param", words(vec![4, 1, 2, 3, 4]), Check::Accept);
    s.call("list_param2", Words::new().text("foo"), Check::Accept);
    s.call("list_param3", words(vec![3]).text("foo").text("bar").text("baz"), Check::Accept);
    s.call(
        "list_param4",
        words(vec![2, 2]).text("foo").text("bar").word(1).text("baz"),
        Check::Accept,
    );
    s.query("list_result", words(vec![5, 1, 2, 3, 4, 5]));
    s.query("list_result2", Words::new().text("hello!"));
    s.query("list_result3", words(vec![2]).text("hello,").text("world!"));
    assert(s@ =~~= lists_steps());
    s
}

/// Lists and strings inside records and variants, and results that carry an error.
pub open spec fn flavorful_steps() -> Seq<StepView> {
    seq![
        StepView::call("list_in_record1"@, no_words().text("list_in_record1"@), CheckView::Accept),
        StepView::query("list_in_record2"@, no_words().text("list_in_record2"@)),
        StepView::call(
            "list_in_record3"@,
            no_words().text("list_in_record3 input"@),
            CheckView::Equals(no_words().text("list_in_record3 output"@)),
        ),
        StepView::call(
            "list_in_record4"@,
            no_words().text("input4"@),
            CheckView::Equals(no_words().text("result4"@)),
        ),
        StepView::call(
            "list_in_variant1"@,
            seq![SOME].text("foo"@).push(ERR).text("bar"@).push(CASE_A).text("baz"@),
            CheckView::Accept,
        ),
        StepView::query("list_in_variant2"@, seq![SOME].text("list_in_variant2"@)),
        StepView::call(
            "list_in_variant3"@,
            seq![SOME].text("input3"@),
            CheckView::Equals(seq![SOME].text("output3"@)),
        ),
        StepView::call("errno_result"@, no_words(), CheckView::Prefix(seq![ERR])),
        StepView::call(
            "list_typedefs"@,
            no_words().text("typedef1"@).push(1).text("typedef2"@),
            CheckView::Equals(no_words().text("typedef3"@).push(1).text("typedef4"@)),
        ),
    ]
}

/// Scripts [`flavorful_steps`].
pub fn flavorful() -> (ret: Script)
    ensures
        ret@ == flavorful_steps(),
{
    let mut s = Script::new();
    s.call("list_in_record1", Words::new().text("list_in_record1"), Check::Accept);
    s.query("list_in_record2", Words::new().text("list_in_record2"));
    s.call(
        "list_in_record3",
        Words::new().text("list_in_record3 input"),
        Check::Equals(Words::new().text("list_in_record3 output")),
    );
    s.call(
        "list_in_record4",
        Words::new().text("input4"),
        Check::Equals(Words::new().text("result4")),
    );
    s.call(
        "list_in_variant1",
        words(vec![SOME]).text("foo").word(ERR).text("bar").word(CASE_A).text("baz"),
        Check::Accept,
    );
    s.query("list_in_variant2", words(vec![SOME]).text("list_in_variant2"));
    s.call(
        "list_in_variant3",
        words(vec![SOME]).text("input3"),
        Check::Equals(words(vec![SOME]).text("output3")),
    );
    s.call("errno_result", Words::new(), Check::Prefix(words(vec![ERR])));
    s.call(
        "list_typedefs",
        Words::new().text("typedef1").word(1).text("typedef2"),
        Check::Equals(Words::new().text("typedef3").word(1).text("typedef4")),
    );
    assert(s@ =~~= flavorful_steps());
    s
}

/// Exports that hand an invalid value to the host, which has to trap.
pub open spec fn invalid_steps() -> Seq<StepView> {
    seq![
        StepView::trap("invalid_bool"@, "invalid discriminant for `bool`"@),
        StepView::trap("invalid_u8"@, "out-of-bounds integer conversion"@),
        StepView::trap("invalid_s8"@, "out-of-bounds integer conversion"@),
        StepView::trap("invalid_u16"@, "out-of-bounds integer conversion"@),
        StepView::trap("invalid_s16"@, "out-of-bounds integer conversion"@),
        StepView::trap("invalid_char"@, "char value out of valid range"@),
        StepView::trap("invalid_e1"@, "invalid discriminant for `E1`"@),
        StepView::trap("invalid_handle"@, "invalid handle index"@),
        StepView::trap("invalid_handle_close"@, "invalid handle index"@),
    ]
}

/// Scripts [`invalid_steps`].
pub fn invalid() -> (ret: Script)
    ensures
        ret@ == invalid_steps(),
{
    let mut s = Script::new();
    s.trap("invalid_bool", "invalid discriminant for `bool`");
    s.trap("invalid_u8", "out-of-bounds integer conversion");
    s.trap("invalid_s8", "out-of-bounds integer conversion");
    s.trap("invalid_u16", "out-of-bounds integer conversion");
    s.trap("invalid_s16", "out-of-bounds integer conversion");
    s.trap("invalid_char", "char value out of valid range");
    s.trap("invalid_e1", "invalid discriminant for `E1`");
    s.trap("invalid_handle", "invalid handle index");
    s.trap("invalid_handle_close", "invalid handle index");
    assert(s@ =~~= invalid_steps());
    s
}

/// Buffers that the module reads from and writes to.
pub open spec fn buffers_steps() -> Seq<StepView> {
    seq![
        StepView::call(
            "buffer_u8"@,
            seq![1i128, 0, 10],
            CheckView::Equals(seq![3i128, 10, 1, 2, 3, 0, 0, 0, 0, 0, 0, 0]),
        ),
        StepView::call(
            "buffer_u32"@,
            seq![1i128, 0, 10],
            CheckView::Equals(seq![3i128, 10, 1, 2, 3, 0, 0, 0, 0, 0, 0, 0]),
        ),
        StepView::call("buffer_bool"@, seq![0i128, 0], CheckView::Prefix(seq![0i128])),
        StepView::call("buffer_string"@, seq![0i128, 0], CheckView::Prefix(seq![0i128])),
        StepView::call("buffer_list_bool"@, seq![0i128, 0], CheckView::Prefix(seq![0i128])),
        StepView::call(
            "buffer_bool"@,
            seq![3, TRUE, FALSE, TRUE, 4],
            CheckView::Equals(seq![3, 3, FALSE, TRUE, FALSE]),
        ),
        StepView::call(
            "buffer_string"@,
            seq![3i128].text("foo"@).text("bar"@).text("baz"@).push(3),
            CheckView::Equals(seq![3i128, 3].text("FOO"@).text("BAR"@).text("BAZ"@)),
        ),
        StepView::call(
            "buffer_list_bool"@,
            seq![2, 3, TRUE, FALSE, TRUE, 2, FALSE, FALSE, 4],
            CheckView::Equals(seq![2, 2, 3, FALSE, TRUE, FALSE, 2, TRUE, TRUE]),
        ),
        StepView::call(
            "buffer_mutable1"@,
            seq![1, 5, TRUE, FALSE, TRUE, TRUE, FALSE],
            CheckView::Accept,
        ),
        StepView::call(
            "buffer_mutable2"@,
            seq![1i128, 10],
            CheckView::Prefix(seq![4i128, 10, 1, 2, 3, 4]),
        ),
        StepView::call(
            "buffer_mutable3"@,
            seq![1i128, 10],
            CheckView::Equals(seq![3, 3, FALSE, TRUE, FALSE]),
        ),
    ]
}

/// Scripts [`buffers_steps`].
pub fn buffers() -> (ret: Script)
    ensures
        ret@ == buffers_steps(),
{
    let mut s = Script::new();
    s.call(
        "buffer_u8",
        words(vec![1, 0, 10]),
        Check::Equals(words(vec![3, 10, 1, 2, 3, 0, 0, 0, 0, 0, 0, 0])),
    );
    s.call(
        "buffer_u32",
        words(vec![1, 0, 10]),
        Check::Equals(words(vec![3, 10, 1, 2, 3, 0, 0, 0, 0, 0, 0, 0])),
    );
    s.call("buffer_bool", words(vec![0, 0]), Check::Prefix(words(vec![0])));
    s.call("buffer_string", words(vec![0, 0]), Check::Prefix(words(vec![0])));
    s.call("buffer_list_bool", words(vec![0, 0]), Check::Prefix(words(vec![0])));
    s.call(
        "buffer_bool",
        words(vec![3, TRUE, FALSE, TRUE, 4]),
        Check::Equals(words(vec![3, 3, FALSE, TRUE, FALSE])),
    );
    s.call(
        "buffer_string",
        words(vec![3]).text("foo").text("bar").text("baz").word(3),
        Check::Equals(words(vec![3, 3]).text("FOO").text("BAR").text("BAZ")),
    );
    s.call(
        "buffer_list_bool",
        words(vec![2, 3, TRUE, FALSE, TRUE, 2, FALSE, FALSE, 4]),
        Check::Equals(words(vec![2, 2, 3, FALSE, TRUE, FALSE, 2, TRUE, TRUE])),
    );
    s.call("buffer_mutable1", words(vec![1, 5, TRUE, FALSE, TRUE, TRUE, FALSE]), Check::Accept);
    s.call("buffer_mutable2", words(vec![1, 10]), Check::Prefix(words(vec![4, 10, 1, 2, 3, 4])));
    s.call(
        "buffer_mutable3",
        words(vec![1, 10]),
        Check::Equals(words(vec![3, 3, FALSE, TRUE, FALSE])),
    );
    assert(s@ =~~= buffers_steps());
    s
}

/// Handles to resources of the module: creating, lending, passing and dropping them. One kind of
/// handle is known not to give its memory back, which accounts for the growth at the end.
pub open spec fn handles_steps() -> Seq<StepView> {
    seq![
        StepView::call("allocated_bytes"@, no_words(), CheckView::Baseline),
        StepView::query("wasm_state_create"@, seq![0i128]),
        StepView::call("wasm_state_get"@, seq![0i128], CheckView::Equals(seq![100i128])),
        StepView::query("wasm_state2_saw_close"@, seq![FALSE]),
        StepView::query("wasm_state2_create"@, seq![1i128]),
        StepView::query("wasm_state2_saw_close"@, seq![FALSE]),
        StepView::release(1),
        StepView::query("wasm_state2_saw_close"@, seq![TRUE]),
        StepView::query("wasm_state_create"@, seq![2i128]),
        StepView::query("wasm_state2_create"@, seq![3i128]),
        StepView::call("two_wasm_states"@, seq![2i128, 3], CheckView::Equals(seq![4i128, 5])),
        StepView::release(3),
        StepView::release(2),
        StepView::call("wasm_state2_param_record"@, seq![5i128], CheckView::Accept),
        StepView::call("wasm_state2_param_tuple"@, seq![5i128], CheckView::Accept),
        StepView::call("wasm_state2_param_option"@, seq![SOME, 5], CheckView::Accept),
        StepView::call("wasm_state2_param_option"@, seq![NONE], CheckView::Accept),
        StepView::call("wasm_state2_param_result"@, seq![OK, 5], CheckView::Accept),
        StepView::call("wasm_state2_param_result"@, seq![ERR, 2], CheckView::Accept),
        StepView::call("wasm_state2_param_variant"@, seq![CASE_A, 5], CheckView::Accept),
        StepView::call("wasm_state2_param_variant"@, seq![CASE_B, 2], CheckView::Accept),
        StepView::call("wasm_state2_param_list"@, seq![0i128], CheckView::Accept),
        StepView::call("wasm_state2_param_list"@, seq![1i128, 5], CheckView::Accept),
        StepView::call("wasm_state2_param_list"@, seq![2i128, 5, 5], CheckView::Accept),
        StepView::call_and_drop("wasm_state2_result_record"@, CheckView::Accept),
        StepView::call_and_drop("wasm_state2_result_tuple"@, CheckView::Accept),
        StepView::call_and_drop("wasm_state2_result_option"@, CheckView::Prefix(seq![SOME])),
        StepView::call_and_drop("wasm_state2_result_result"@, CheckView::Prefix(seq![OK])),
        StepView::call_and_drop("wasm_state2_result_variant"@, CheckView::Accept),
        StepView::call_and_drop("wasm_state2_result_list"@, CheckView::Accept),
        StepView::release(5),
        StepView::release(4),
        StepView::release(0),
        StepView::call("allocated_bytes"@, no_words(), CheckView::Grown(12)),
    ]
}

/// Scripts [`handles_steps`].
pub fn handles() -> (ret: Script)
    ensures
        ret@ == handles_steps(),
{
    let mut s = Script::new();
    s.call("allocated_bytes", Words::new(), Check::Baseline);
    s.query("wasm_state_create", words(vec![0]));
    s.call("wasm_state_get", words(vec![0]), Check::Equals(words(vec![100])));
    s.query("wasm_state2_saw_close", words(vec![FALSE]));
    s.query("wasm_state2_create", words(vec![1]));
    s.query("wasm_state2_saw_close", words(vec![FALSE]));
    s.release(1);
    s.query("wasm_state2_saw_close", words(vec![TRUE]));
    s.query("wasm_state_create", words(vec![2]));
    s.query("wasm_state2_create", words(vec![3]));
    s.call("two_wasm_states", words(vec![2, 3]), Check::Equals(words(vec![4, 5])));
    s.release(3);
    s.release(2);
    s.call("wasm_state2_param_record", words(vec![5]), Check::Accept);
    s.call("wasm_state2_param_tuple", words(vec![5]), Check::Accept);
    s.call("wasm_state2_param_option", words(vec![SOME, 5]), Check::Accept);
    s.call("wasm_state2_param_option", words(vec![NONE]), Check::Accept);
    s.call("wasm_state2_param_result", words(vec![OK, 5]), Check::Accept);
    s.call("wasm_state2_param_result", words(vec![ERR, 2]), Check::Accept);
    s.call("wasm_state2_param_variant", words(vec![CASE_A, 5]), Check::Accept);
    s.call("wasm_state2_param_variant", words(vec![CASE_B, 2]), Check::Accept);
    s.call("wasm_state2_param_list", words(vec![0]), Check::Accept);
    s.call("wasm_state2_param_list", words(vec![1, 5]), Check::Accept);
    s.call("wasm_state2_param_list", words(vec![2, 5, 5]), Check::Accept);
    s.call_and_drop("wasm_state2_result_record", Check::Accept);
    s.call_and_drop("wasm_state2_result_tuple", Check::Accept);
    s.call_and_drop("wasm_state2_result_option", Check::Prefix(words(vec![SOME])));
    s.call_and_drop("wasm_state2_result_result", Check::Prefix(words(vec![OK])));
    s.call_and_drop("wasm_state2_result_variant", Check::Accept);
    s.call_and_drop("wasm_state2_result_list", Check::Accept);
    s.release(5);
    s.release(4);
    s.release(0);
    s.call("allocated_bytes", Words::new(), Check::Grown(12));
    assert(s@ =~~= handles_steps());
    s
}

/// The steps of [`test_steps`] before its second count of bytes: a first count of bytes, the
/// module's own tests of its imports, and all groups that give their memory back.
pub open spec fn balanced_steps() -> Seq<StepView> {
    seq![
        StepView::call("allocated_bytes"@, no_words(), CheckView::Baseline),
        StepView::call("run_import_tests"@, no_words(), CheckView::Accept),
    ] + scalars_steps() + records_steps() + variants_steps() + lists_steps() + flavorful_steps()
        + invalid_steps() + buffers_steps()
}

/// The whole conformance script.
pub open spec fn test_steps() -> Seq<StepView> {
    balanced_steps() + seq![
        StepView::call("allocated_bytes"@, no_words(), CheckView::Grown(0)),
    ] + handles_steps()
}

/// Starts a session with the whole conformance script.
pub fn test() -> (ret: Session)
    ensures
        ret@ == SessionView::start(test_steps()),
{
    let mut s = Script::new();
    s.call("allocated_bytes", Words::new(), Check::Baseline);
    s.call("run_import_tests", Words::new(), Check::Accept);
    s.append(scalars());
    s.append(records());
    s.append(variants());
    s.append(lists());
    s.append(flavorful());
    s.append(invalid());
    s.append(buffers());
    assert(s@ =~~= balanced_steps());
    s.call("allocated_bytes", Words::new(), Check::Grown(0));
    s.append(handles());
    assert(s@ =~~= test_steps());
    Session::new(s)
}

/// Where in [`test_steps`] its second count of bytes stands.
pub open spec fn second_count() -> int {
    balanced_steps().len() as int
}

/// Whether no step sets a baseline.
pub open spec fn no_baseline(steps: Seq<StepView>) -> bool {
    forall|i: int| 0 <= i < steps.len() ==> (#[trigger] steps[i]).check !is Baseline
}

/// Only the first of the steps before the second count of bytes sets a baseline.
proof fn lemma_first_baseline()
    ensures
        balanced_steps().len() > 0,
        balanced_steps()[0].check is Baseline,
        no_baseline(balanced_steps().skip(1)),
{
    assert(no_baseline(scalars_steps()));
    assert(no_baseline(records_steps()));
    assert(no_baseline(variants_steps()));
    assert(no_baseline(lists_steps()));
    assert(no_baseline(flavorful_steps()));
    assert(no_baseline(invalid_steps()));
    assert(no_baseline(buffers_steps()));
}

/// All groups but the handles give their memory back: in a session that gets past the second count
/// of bytes, that count is the first one again.
pub proof fn law_memory_is_given_back(replies: Seq<Reply>)
    requires
        crate::session::all_accepted(SessionView::start(test_steps()), replies),
        replies.len() > second_count(),
    ensures
        replies[0] is Ok,
        replies[second_count()] is Ok,
        replies[second_count()]->Ok_0@ == replies[0]->Ok_0@,
{
    lemma_first_baseline();
    let session = SessionView::start(test_steps());
    let upto = replies.take(second_count() + 1);
    crate::session::lemma_accepted_take(session, replies, second_count() + 1);
    assert forall|i: int| 0 < i < upto.len() implies test_steps()[i].check !is Baseline by {
        if i < second_count() {
            assert(balanced_steps().skip(1)[i - 1].check !is Baseline);
        }
    }
    crate::session::law_growth_is_exact(session, upto, 0);
}

/// The handles leave exactly twelve bytes behind: in a session that gets through the whole script,
/// the last count of bytes exceeds the one at the start of that group by twelve.
pub proof fn law_handles_leave_twelve_bytes(replies: Seq<Reply>)
    requires
        crate::session::all_accepted(SessionView::start(test_steps()), replies),
        replies.len() == test_steps().len(),
    ensures
        replies[second_count() + 1] is Ok,
        replies.last() is Ok,
        replies.last()->Ok_0@ == seq![
            (replies[second_count() + 1]->Ok_0@[0] + 12) as i128,
        ],
{
    let session = SessionView::start(test_steps());
    let from = second_count() + 1;
    crate::session::lemma_accepted_take(session, replies, from);
    crate::session::lemma_accepted_skip(session, replies, from);
    crate::session::law_session_advances_with_accepted_replies(session, replies.take(from));
    let later = crate::session::session_after(session, replies.take(from));
    assert(forall|i: int|
        0 <= i < handles_steps().len() ==> test_steps()[from + i] == handles_steps()[i]);
    assert(no_baseline(handles_steps().skip(1)));
    assert forall|i: int| from < i < from + replies.skip(from).len() implies later.steps[i].check
        !is Baseline by {
        assert(handles_steps().skip(1)[i - from - 1].check !is Baseline);
    }
    crate::session::law_growth_is_exact(later, replies.skip(from), 12);
}

} // verus!
