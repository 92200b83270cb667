use nano_snipper::bench::{
    colorref_brightness, key_combo_events, parse_args, parse_u32, Args, ArgsError, BenchMode, Command, KeyEvent,
    NumberError, NumberOption, Tool,
};

fn args(v: &[&str]) -> Vec<String> {
    v.iter().map(|s| s.to_string()).collect()
}

fn run(v: &[&str]) -> Args {
    match parse_args(&args(v)) {
        Ok(Command::Run(a)) => a,
        other => panic!("unexpected {:?}", other),
    }
}

#[test]
fn defaults() {
    assert_eq!(run(&["snip-bench"]), Args { tool: Tool::NanoSnipper, mode: BenchMode::Fullscreen, runs: 10, delay_secs: 3, json: false });
}

#[test]
fn all_options() {
    let a = run(&["snip-bench", "--tool", "snipping-tool", "--mode", "fullscreen", "--runs", "5", "--delay", "+7", "--json"]);
    assert_eq!(a, Args { tool: Tool::SnippingTool, mode: BenchMode::Fullscreen, runs: 5, delay_secs: 7, json: true });
    assert_eq!(run(&["x", "--tool", "nano-snipper", "--runs", "1"]).runs, 1);
}

#[test]
fn help_stops_reading() {
    assert!(matches!(parse_args(&args(&["x", "--json", "-h", "--bogus"])), Ok(Command::Help)));
    assert!(matches!(parse_args(&args(&["x", "--help"])), Ok(Command::Help)));
}

#[test]
fn errors() {
    assert!(matches!(parse_args(&args(&["x", "--tool", "paint"])), Err(ArgsError::UnknownTool(Some(ref t))) if t == "paint"));
    assert!(matches!(parse_args(&args(&["x", "--tool"])), Err(ArgsError::UnknownTool(None))));
    assert!(matches!(parse_args(&args(&["x", "--mode", "region"])), Err(ArgsError::UnknownMode(Some(ref t))) if t == "region"));
    assert!(matches!(parse_args(&args(&["x", "--runs"])), Err(ArgsError::MissingNumber(NumberOption::Runs))));
    assert!(matches!(parse_args(&args(&["x", "--delay"])), Err(ArgsError::MissingNumber(NumberOption::Delay))));
    assert!(matches!(parse_args(&args(&["x", "--runs", "ten"])), Err(ArgsError::InvalidNumber(NumberError::InvalidDigit))));
    assert!(matches!(parse_args(&args(&["x", "--runs", "1", "-v"])), Err(ArgsError::UnknownArgument(ref a)) if a == "-v"));
}

#[test]
fn numbers_parse_like_from_str() {
    for s in ["0", "42", "+8", "4294967295", "007", "", "+", "-1", " 1", "1 ", "4294967296", "99999999999x", "1x9", "+-1", "١"] {
        let expected = match s.parse::<u32>() {
            Ok(v) => Ok(v),
            Err(e) => Err(match e.kind() {
                std::num::IntErrorKind::Empty => NumberError::Empty,
                std::num::IntErrorKind::PosOverflow => NumberError::PosOverflow,
                _ => NumberError::InvalidDigit,
            }),
        };
        assert_eq!(parse_u32(s), expected, "input {:?}", s);
    }
    assert_eq!(parse_u32("4294967295"), Ok(u32::MAX));
    assert_eq!(parse_u32("4294967296"), Err(NumberError::PosOverflow));
    assert_eq!(parse_u32(""), Err(NumberError::Empty));
    assert_eq!(parse_u32("+"), Err(NumberError::InvalidDigit));
}

#[test]
fn key_combo_presses_then_releases_in_reverse() {
    let ev = key_combo_events(&vec![(0x5B, true), (0x10, false), (0x53, false)]);
    assert_eq!(ev, vec![
        KeyEvent { vk: 0x5B, flags: 1 },
        KeyEvent { vk: 0x10, flags: 0 },
        KeyEvent { vk: 0x53, flags: 0 },
        KeyEvent { vk: 0x53, flags: 2 },
        KeyEvent { vk: 0x10, flags: 2 },
        KeyEvent { vk: 0x5B, flags: 3 },
    ]);
    assert!(key_combo_events(&vec![]).is_empty());
}

#[test]
fn brightness() {
    assert_eq!(colorref_brightness(0xFFFF_FFFF), 255);
    assert_eq!(colorref_brightness(0x00FF_FFFF), 255);
    assert_eq!(colorref_brightness(0x0000_0000), 0);
    assert_eq!(colorref_brightness(0x0003_0201), 2);
    assert_eq!(colorref_brightness(0x0100_0064), 33);
}

#[test]
fn decimal_text_reads_back() {
    for n in [0u32, 9, 10, 4096, u32::MAX] {
        assert_eq!(parse_u32(&n.to_string()), Ok(n));
    }
}
