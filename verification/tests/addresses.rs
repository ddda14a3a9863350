use transfer_executor::address::Address;

const CONTRACT: [u8; 20] = [
    0x3f, 0x1f, 0x78, 0xed, 0x98, 0xcd, 0x18, 0x07, 0x94, 0xf1, 0x34, 0x6f, 0x5b, 0xd3, 0x79, 0xd5,
    0xec, 0x47, 0xde, 0x90,
];

fn address_samples() -> Vec<String> {
    let mut samples: Vec<String> = vec![
        "0x3f1f78ED98Cd180794f1346F5bD379D5Ec47DE90",
        "3f1f78ED98Cd180794f1346F5bD379D5Ec47DE90",
        "0x3f1f78ed98cd180794f1346f5bd379d5ec47de90",
        "0X3f1f78ED98Cd180794f1346F5bD379D5Ec47DE90",
        "0x0x3f1f78ED98Cd180794f1346F5bD379D5Ec47DE90",
        "0x3f1f78ED98Cd180794f1346F5bD379D5Ec47DE9",
        "0x3f1f78ED98Cd180794f1346F5bD379D5Ec47DE",
        "0x3f1f78ED98Cd180794f1346F5bD379D5Ec47DE900",
        "0x3f1f78ED98Cd180794f1346F5bD379D5Ec47DE9000",
        "0x3f1f78ED98Cd180794f1346F5bD379D5Ec47DE9g",
        "0x3f1f78ED98Cd180794f1346F5bD379D5Ec47DE90g",
        "0xzf1f78ED98Cd180794f1346F5bD379D5Ec47DE90",
        " 0x3f1f78ED98Cd180794f1346F5bD379D5Ec47DE90",
        "0x3f1f78ED98Cd180794f1346F5bD379D5Ec47DE90 ",
        "0x 3f1f 78ED 98Cd 1807 94f1 346F 5bD3 79D5 Ec47 DE90\r\n",
        "0x3f1f78ED98Cd1807\t94f1346F5bD379D5Ec47DE90",
        "0x3f1f78ED98Cd1807\u{b}94f1346F5bD379D5Ec47DE90",
        "0x3f1f78ED98Cd180794f1346F5bD379D5Ec47DE9\u{e9}",
        "0x3f1f78ED98Cd180794f1346F5bD379D5Ec47DE\u{ff10}",
        "",
        "0x",
        "0",
        "x",
        " ",
        "0x0000000000000000000000000000000000000000",
        "0xffffffffffffffffffffffffffffffffffffffff",
        "0xFFFFFFFFFFFFFFFFFFFFFFFFFFFFFFFFFFFFFFFF",
        "0x00000000000000000000000000000000000000000000000000000000000000ff",
        "/x3f1f78ED98Cd180794f1346F5bD379D5Ec47DE90",
        "0x:f1f78ED98Cd180794f1346F5bD379D5Ec47DE90",
        "0x@f1f78ED98Cd180794f1346F5bD379D5Ec47DE90",
        "0xGf1f78ED98Cd180794f1346F5bD379D5Ec47DE90",
        "0x`f1f78ED98Cd180794f1346F5bD379D5Ec47DE90",
    ]
    .into_iter()
    .map(String::from)
    .collect();
    samples.push("0x".to_string() + &"ab".repeat(20));
    samples.push("ab ".repeat(20));
    samples.push("ab ".repeat(21));
    samples.push("0xx".to_string() + &"ab".repeat(20));
    samples
}

#[test]
fn parses_a_prefixed_address() {
    let address = Address::parse("0x3f1f78ED98Cd180794f1346F5bD379D5Ec47DE90").unwrap();
    assert_eq!(address.bytes, CONTRACT);
}

#[test]
fn parses_an_address_without_prefix() {
    let address = Address::parse("3f1f78ED98Cd180794f1346F5bD379D5Ec47DE90").unwrap();
    assert_eq!(address.bytes, CONTRACT);
}

#[test]
fn digits_of_either_case_are_the_same_address() {
    let lower = Address::parse("0x3f1f78ed98cd180794f1346f5bd379d5ec47de90").unwrap();
    let upper = Address::parse("0x3F1F78ED98CD180794F1346F5BD379D5EC47DE90").unwrap();
    assert_eq!(lower, upper);
    assert_eq!(lower.bytes, CONTRACT);
}

#[test]
fn blanks_among_the_digits_are_skipped() {
    let address =
        Address::parse("0x 3f1f 78ED 98Cd 1807 94f1 346F 5bD3 79D5 Ec47 DE90\r\n").unwrap();
    assert_eq!(address.bytes, CONTRACT);
    let address = Address::parse("3\tf1f78ED98Cd180794f1346F5bD379D5Ec47DE90 ").unwrap();
    assert_eq!(address.bytes, CONTRACT);
}

#[test]
fn extreme_addresses() {
    assert_eq!(
        Address::parse("0x0000000000000000000000000000000000000000").unwrap().bytes,
        [0u8; 20]
    );
    assert_eq!(
        Address::parse("0xffffffffffffffffffffffffffffffffffffffff").unwrap().bytes,
        [0xffu8; 20]
    );
}

#[test]
fn wrong_length_is_malformed() {
    assert_eq!(Address::parse(""), None);
    assert_eq!(Address::parse("0x"), None);
    assert_eq!(Address::parse("0x3f1f78ED98Cd180794f1346F5bD379D5Ec47DE9"), None);
    assert_eq!(Address::parse("0x3f1f78ED98Cd180794f1346F5bD379D5Ec47DE"), None);
    assert_eq!(Address::parse("0x3f1f78ED98Cd180794f1346F5bD379D5Ec47DE900"), None);
    assert_eq!(Address::parse("0x3f1f78ED98Cd180794f1346F5bD379D5Ec47DE9000"), None);
}

#[test]
fn wrong_charset_is_malformed() {
    assert_eq!(Address::parse("0xzf1f78ED98Cd180794f1346F5bD379D5Ec47DE90"), None);
    assert_eq!(Address::parse("0x3f1f78ED98Cd180794f1346F5bD379D5Ec47DE9g"), None);
    assert_eq!(Address::parse("0x3f1f78ED98Cd180794f1346F5bD379D5Ec47DE9\u{e9}"), None);
    assert_eq!(Address::parse("0x3f1f78ED98Cd1807\u{b}94f1346F5bD379D5Ec47DE90"), None);
}

#[test]
fn only_one_lower_case_prefix_is_taken_off() {
    assert_eq!(Address::parse("0X3f1f78ED98Cd180794f1346F5bD379D5Ec47DE90"), None);
    assert_eq!(Address::parse("0x0x3f1f78ED98Cd180794f1346F5bD379D5Ec47DE90"), None);
    assert_eq!(Address::parse(" 0x3f1f78ED98Cd180794f1346F5bD379D5Ec47DE90"), None);
}

#[test]
fn a_stray_character_after_the_digits_is_malformed() {
    assert_eq!(Address::parse("0x3f1f78ED98Cd180794f1346F5bD379D5Ec47DE90g"), None);
    assert_eq!(Address::parse("0x3f1f78ED98Cd180794f1346F5bD379D5Ec47DE90 ,"), None);
}

#[test]
fn parse_agrees_with_ethers() {
    for text in address_samples() {
        let ours = Address::parse(&text).map(|a| a.bytes);
        let theirs = text.parse::<ethers::types::Address>().ok().map(|a| a.0);
        assert_eq!(ours, theirs, "on {:?}", text);
    }
}

/// A small deterministic generator, so that every run sees the same texts.
fn next_state(state: &mut u64) -> u64 {
    *state = state.wrapping_mul(6364136223846793005).wrapping_add(1442695040888963407);
    *state >> 33
}

#[test]
fn parse_agrees_with_ethers_on_generated_texts() {
    let alphabet: Vec<char> = "0123456789abcdefABCDEF".chars().collect();
    let noise: Vec<char> = " \t\r\nxXgG-_\u{b}\u{c}\u{e9}".chars().collect();
    let mut state: u64 = 0x2545_f491_4f6c_dd1d;
    let mut accepted = 0;
    for round in 0..4000 {
        let digits = 36 + (next_state(&mut state) % 8) as usize;
        let digits = if round % 2 == 0 { 40 } else { digits };
        let mut text = String::new();
        if next_state(&mut state) % 2 == 0 {
            text.push_str("0x");
        }
        for _ in 0..digits {
            if next_state(&mut state) % 16 == 0 {
                text.push(noise[(next_state(&mut state) % noise.len() as u64) as usize]);
            }
            text.push(alphabet[(next_state(&mut state) % alphabet.len() as u64) as usize]);
        }
        let ours = Address::parse(&text).map(|a| a.bytes);
        let theirs = text.parse::<ethers::types::Address>().ok().map(|a| a.0);
        assert_eq!(ours, theirs, "on {:?}", text);
        if ours.is_some() {
            accepted += 1;
        }
    }
    assert!(accepted > 100);
}
