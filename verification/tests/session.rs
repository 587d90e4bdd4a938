use wasm_task::exports;
use wasm_task::session::{
    did_not_trap_message, Call, Check, Failure, Reply, Script, Session, Words, INFINITY,
};

fn words(list: &[i128]) -> Words {
    Words { words: list.to_vec() }
}

fn ok(list: &[i128]) -> Reply {
    Ok(words(list))
}

fn text(s: &str) -> Vec<i128> {
    Words::new().text(s).words
}

/// A module that behaves: it answers every call of the conformance script as expected.
struct Model {
    scalar: i128,
    handles: i128,
    saw_close: i128,
    bytes: i128,
}

impl Model {
    fn new() -> Model {
        Model { scalar: 0, handles: 0, saw_close: 0, bytes: 1000 }
    }

    fn handle(&mut self, keep: bool) -> i128 {
        if !keep {
            return 0;
        }
        self.handles += 1;
        self.handles - 1
    }

    fn export(&mut self, name: &str, args: &[i128], keep: bool) -> Vec<i128> {
        match name {
            "allocated_bytes" => vec![self.bytes],
            "multiple_results" => vec![100, 200],
            "set_scalar" => {
                self.scalar = args[0];
                vec![]
            }
            "get_scalar" => vec![self.scalar],
            "swap_tuple" => vec![args[1], args[0]],
            "roundtrip_option" => match args[0] {
                0 => vec![0],
                _ => vec![1, f64::from_bits(args[1] as u64) as i128],
            },
            "roundtrip_result" => match args[0] {
                0 => vec![0, (args[1] as f64).to_bits() as i128],
                _ => vec![1, f64::from_bits(args[1] as u64) as i128],
            },
            "invert_bool" => vec![1 - args[0]],
            "list_result" => vec![5, 1, 2, 3, 4, 5],
            "list_result2" => text("hello!"),
            "list_result3" => Words::new().word(2).text("hello,").text("world!").words,
            "list_in_record2" => text("list_in_record2"),
            "list_in_record3" => {
                assert_eq!(args, text("list_in_record3 input"));
                text("list_in_record3 output")
            }
            "list_in_record4" => text("result4"),
            "list_in_variant2" => Words::new().word(1).text("list_in_variant2").words,
            "list_in_variant3" => Words::new().word(1).text("output3").words,
            "errno_result" => vec![1, 4],
            "list_typedefs" => Words::new().text("typedef3").word(1).text("typedef4").words,
            "buffer_u8" | "buffer_u32" => vec![3, 10, 1, 2, 3, 0, 0, 0, 0, 0, 0, 0],
            "buffer_bool" if args[0] == 0 => vec![0, 0],
            "buffer_string" if args[0] == 0 => vec![0, 0],
            "buffer_list_bool" if args[0] == 0 => vec![0, 0],
            "buffer_bool" => vec![3, 3, 0, 1, 0],
            "buffer_string" => Words::new().word(3).word(3).text("FOO").text("BAR").text("BAZ").words,
            "buffer_list_bool" => vec![2, 2, 3, 0, 1, 0, 2, 1, 1],
            "buffer_mutable2" => vec![4, 10, 1, 2, 3, 4, 9, 9, 9, 9, 9, 9],
            "buffer_mutable3" => vec![3, 3, 0, 1, 0],
            "wasm_state_create" => vec![self.handle(keep)],
            "wasm_state2_create" => vec![self.handle(keep)],
            "wasm_state_get" => vec![100],
            "wasm_state2_saw_close" => vec![self.saw_close],
            "two_wasm_states" => {
                self.bytes += 12;
                vec![self.handle(keep), self.handle(keep)]
            }
            "wasm_state2_result_option" => vec![1, self.handle(keep)],
            "wasm_state2_result_result" => vec![0, self.handle(keep)],
            "wasm_state2_result_record" | "wasm_state2_result_tuple" => vec![self.handle(keep)],
            "wasm_state2_result_variant" => vec![0, self.handle(keep)],
            "wasm_state2_result_list" => vec![1, self.handle(keep)],
            _ if name.starts_with("roundtrip_")
                || name == "variant_casts"
                || name == "variant_zeros"
                || name == "tuple0"
                || name == "tuple1" =>
            {
                args.to_vec()
            }
            _ => vec![],
        }
    }

    fn reply(&mut self, call: &Call) -> Reply {
        match call {
            Call::Export { name, args, keep } => Ok(words(&self.export(name, &args.words, *keep))),
            Call::Run { name } => Err(match *name {
                "invalid_bool" => "trap: invalid discriminant for `bool`".to_string(),
                "invalid_char" => "char value out of valid range".to_string(),
                "invalid_e1" => "invalid discriminant for `E1`, it was 9".to_string(),
                "invalid_handle" | "invalid_handle_close" => "invalid handle index".to_string(),
                _ => "an out-of-bounds integer conversion was made".to_string(),
            }),
            Call::Release { handle } => {
                if *handle == 1 {
                    self.saw_close = 1;
                }
                ok(&[])
            }
        }
    }
}

/// Runs the whole conformance script, with `spoil` applied to every reply, and returns how many
/// steps were passed and how it ended.
fn run(spoil: impl Fn(&Call, usize, Reply) -> Reply) -> (usize, Result<(), Failure>) {
    let mut session = exports::test();
    let mut model = Model::new();
    let mut passed = 0;
    loop {
        let reply = match session.next_call() {
            None => return (passed, Ok(())),
            Some(call) => {
                let reply = model.reply(call);
                spoil(call, passed, reply)
            }
        };
        if let Err(failure) = session.on_reply(&reply) {
            return (passed, Err(failure));
        }
        passed += 1;
    }
}

fn is_export(call: &Call, wanted: &str) -> bool {
    matches!(call, Call::Export { name, .. } if *name == wanted)
}

#[test]
fn a_conforming_module_passes() {
    assert_eq!(run(|_, _, reply| reply), (140, Ok(())));
}

#[test]
fn every_reply_matters() {
    let (steps, _) = run(|_, _, reply| reply);
    for step in 0..steps {
        let outcome = run(|call, at, reply| {
            if at != step {
                reply
            } else if let Call::Run { .. } = call {
                ok(&[])
            } else {
                Err("unreachable executed".to_string())
            }
        });
        match outcome {
            (at, Err(Failure::Call)) | (at, Err(Failure::DidNotTrap)) => assert_eq!(at, step),
            other => panic!("step {} was passed: {:?}", step, other),
        }
    }
}

#[test]
fn wrong_results_are_mismatches() {
    for wanted in [
        "roundtrip_u8",
        "roundtrip_s64",
        "multiple_results",
        "roundtrip_f32",
        "roundtrip_char",
        "swap_tuple",
        "roundtrip_flags2",
        "tuple1",
        "roundtrip_option",
        "roundtrip_result",
        "roundtrip_enum",
        "invert_bool",
        "variant_casts",
        "variant_zeros",
        "list_result",
        "list_result2",
        "list_in_record3",
        "errno_result",
        "list_typedefs",
        "buffer_u8",
        "buffer_mutable2",
        "wasm_state_get",
        "wasm_state2_saw_close",
        "wasm_state2_result_option",
        "wasm_state2_result_result",
    ] {
        let (_, outcome) = run(|call, _, reply| {
            if !is_export(call, wanted) {
                return reply;
            }
            let mut list = reply.unwrap().words;
            list[0] = list[0] ^ 2;
            ok(&list)
        });
        assert_eq!(outcome, Err(Failure::Mismatch), "{}", wanted);
    }
}

#[test]
fn leaks_are_found() {
    // The second count of bytes is off by one.
    let (at, outcome) = run(|call, at, reply| {
        if is_export(call, "allocated_bytes") && at > 0 {
            ok(&[reply.unwrap().words[0] + 1])
        } else {
            reply
        }
    });
    assert_eq!(outcome, Err(Failure::Mismatch));
    assert_eq!(at, 105);
}

#[test]
fn handles_leave_twelve_bytes() {
    let (at, outcome) = run(|call, at, reply| {
        if is_export(call, "allocated_bytes") && at == 139 {
            ok(&[reply.unwrap().words[0] - 12])
        } else {
            reply
        }
    });
    assert_eq!((at, outcome), (139, Err(Failure::Mismatch)));
}

#[test]
fn traps_need_the_right_message() {
    let check = Check::Traps("invalid handle index");
    assert_eq!(check.judge(0, &Err("invalid handle index".to_string())), Ok(()));
    assert_eq!(check.judge(0, &Err("oh: invalid handle index!".to_string())), Ok(()));
    assert_eq!(
        check.judge(0, &Err("invalid handle inde".to_string())),
        Err(Failure::Call)
    );
    assert_eq!(check.judge(0, &Err(String::new())), Err(Failure::Call));
    assert_eq!(check.judge(0, &ok(&[])), Err(Failure::DidNotTrap));
    assert_eq!(
        did_not_trap_message("invalid_u8"),
        "export `invalid_u8` didn't trap"
    );
}

#[test]
fn any_message_holds_nothing() {
    assert_eq!(Check::Traps("").judge(0, &Err(String::new())), Ok(()));
    assert_eq!(Check::Traps("").judge(0, &Err("x".to_string())), Ok(()));
}

#[test]
fn messages_are_searched_from_every_position() {
    let check = Check::Traps("aab");
    assert_eq!(check.judge(0, &Err("aaab".to_string())), Ok(()));
    assert_eq!(check.judge(0, &Err("ababaab".to_string())), Ok(()));
    assert_eq!(check.judge(0, &Err("aaaa".to_string())), Err(Failure::Call));
    assert_eq!(Check::Traps("é").judge(0, &Err("café".to_string())), Ok(()));
}

#[test]
fn not_a_number() {
    let check = Check::NotANumber;
    for bits in [f64::NAN.to_bits(), (-f64::NAN).to_bits(), 0x7ff0_0000_0000_0001, u64::MAX] {
        assert!(f64::from_bits(bits).is_nan());
        assert_eq!(check.judge(0, &ok(&[bits as i128])), Ok(()));
    }
    for number in [0.0, -0.0, 1.0, -1.0, f64::MAX, f64::INFINITY, f64::NEG_INFINITY] {
        assert_eq!(
            check.judge(0, &ok(&[number.to_bits() as i128])),
            Err(Failure::Mismatch)
        );
    }
    assert_eq!(check.judge(0, &ok(&[])), Err(Failure::Mismatch));
    assert_eq!(check.judge(0, &ok(&[exports::NAN, 0])), Err(Failure::Mismatch));
    assert_eq!(check.judge(0, &ok(&[1 << 64 | exports::NAN])), Err(Failure::Mismatch));
    assert_eq!(check.judge(0, &ok(&[-1])), Err(Failure::Mismatch));
}

#[test]
fn bits_of_numbers() {
    assert_eq!(INFINITY, f64::INFINITY.to_bits() as i128);
    assert_eq!(exports::NEG_INFINITY, f64::NEG_INFINITY.to_bits() as i128);
    assert!(f64::from_bits(exports::NAN as u64).is_nan());
    assert_eq!(exports::FLOAT_1, 1.0f64.to_bits() as i128);
    assert_eq!(exports::FLOAT_2, 2.0f64.to_bits() as i128);
    assert_eq!(exports::FLOAT_3, 3.0f64.to_bits() as i128);
    assert_eq!(exports::FLOAT_4, 4.0f64.to_bits() as i128);
    assert_eq!(exports::FLOAT_5, 5.0f64.to_bits() as i128);
    assert_eq!(exports::FLOAT_5_3, 5.3f64.to_bits() as i128);
    assert_eq!(exports::FLOAT_6, 6.0f64.to_bits() as i128);
    assert_eq!(exports::CHAR_A, 'a' as i128);
    assert_eq!(exports::CHAR_SPACE, ' ' as i128);
    assert_eq!(exports::CHAR_FLAG, '🚩' as i128);
}

#[test]
fn words_of_strings() {
    assert_eq!(text(""), [0]);
    assert_eq!(text("foo"), [3, 'f' as i128, 'o' as i128, 'o' as i128]);
    assert_eq!(text("é🚩"), [2, 0xe9, 0x1f6a9]);
    assert_eq!(words(&[1, 2]).copy().words, [1, 2]);
}

#[test]
fn equals_and_prefix() {
    let equals = Check::Equals(words(&[1, 2]));
    assert_eq!(equals.judge(0, &ok(&[1, 2])), Ok(()));
    assert_eq!(equals.judge(0, &ok(&[1])), Err(Failure::Mismatch));
    assert_eq!(equals.judge(0, &ok(&[1, 2, 3])), Err(Failure::Mismatch));
    assert_eq!(equals.judge(0, &ok(&[1, 3])), Err(Failure::Mismatch));
    assert_eq!(equals.judge(0, &Err("trap".to_string())), Err(Failure::Call));
    let prefix = Check::Prefix(words(&[1, 2]));
    assert_eq!(prefix.judge(0, &ok(&[1, 2, 3])), Ok(()));
    assert_eq!(prefix.judge(0, &ok(&[1])), Err(Failure::Mismatch));
    assert_eq!(prefix.judge(0, &ok(&[2, 2])), Err(Failure::Mismatch));
}

#[test]
fn growth_is_measured_from_the_latest_baseline() {
    let mut script = Script::new();
    script.call("a", Words::new(), Check::Baseline);
    script.call("b", Words::new(), Check::Accept);
    script.call("a", Words::new(), Check::Grown(5));
    script.call("a", Words::new(), Check::Baseline);
    script.call("a", Words::new(), Check::Grown(0));
    let mut session = Session::new(script);
    assert_eq!(session.on_reply(&ok(&[100])), Ok(()));
    assert_eq!(session.on_reply(&ok(&[7, 7])), Ok(()));
    assert_eq!(session.on_reply(&ok(&[104])), Err(Failure::Mismatch));
    assert_eq!(session.on_reply(&ok(&[105])), Ok(()));
    assert_eq!(session.on_reply(&ok(&[1 << 32])), Err(Failure::Mismatch));
    assert_eq!(session.on_reply(&ok(&[-1])), Err(Failure::Mismatch));
    assert_eq!(session.on_reply(&ok(&[u32::MAX as i128])), Ok(()));
    assert!(session.next_call().is_some());
    assert_eq!(session.on_reply(&ok(&[u32::MAX as i128])), Ok(()));
    assert!(session.next_call().is_none());
}

#[test]
fn scripts_are_walked_in_order() {
    let mut script = Script::new();
    script.echo("e", words(&[3]));
    script.query("q", words(&[4]));
    script.release(2);
    script.call_and_drop("d", Check::Accept);
    let mut more = Script::new();
    more.trap("t", "boom");
    script.append(more);
    let mut session = Session::new(script);
    assert!(matches!(session.next_call(),
        Some(Call::Export { name: "e", args, keep: true }) if args.words == [3]));
    assert_eq!(session.on_reply(&ok(&[3])), Ok(()));
    assert!(matches!(session.next_call(),
        Some(Call::Export { name: "q", args, keep: true }) if args.words.is_empty()));
    assert_eq!(session.on_reply(&ok(&[4])), Ok(()));
    assert!(matches!(session.next_call(), Some(Call::Release { handle: 2 })));
    assert_eq!(session.on_reply(&ok(&[])), Ok(()));
    assert!(matches!(session.next_call(),
        Some(Call::Export { name: "d", args, keep: false }) if args.words.is_empty()));
    assert_eq!(session.on_reply(&ok(&[0])), Ok(()));
    assert!(matches!(session.next_call(), Some(Call::Run { name: "t" })));
    assert_eq!(session.on_reply(&Err("boom".to_string())), Ok(()));
    assert!(session.next_call().is_none());
}
