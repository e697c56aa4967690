use regex::Regex;
use rsx::repair::repair;

/// The repair written as two regex rewrites: the selector rewrite once, then
/// the hyphen rewrite until nothing changes, so that chains join whole.
fn regex_repair(re_selectors: &Regex, re_links: &Regex, source: &str) -> String {
    let mut text = re_selectors.replace_all(source, "$type$name").into_owned();
    loop {
        let next = re_links.replace_all(&text, "$start-$end").into_owned();
        if next == text {
            return text;
        }
        text = next;
    }
}

fn rewrites() -> (Regex, Regex) {
    (
        Regex::new(r"(?P<type>[.#])\s(?P<name>[a-zA-Z0-9]+)").unwrap(),
        Regex::new(r"(?P<start>[a-zA-Z0-9])\s-\s(?P<end>[a-zA-Z0-9])").unwrap(),
    )
}

#[test]
fn repair_agrees_with_regex_rewrite_on_samples() {
    let (re_selectors, re_links) = rewrites();
    let samples = [
        ". foo { margin : 0 auto ; padding : 10px ; }",
        ". foo , . bar - baz { margin - left : 10px ; }",
        "# root . image { flex - direction : row ; }",
        "a - b  - c ",
        "a - b - c - d",
        ".\u{a0}x \u{3000}- y\u{2028}",
        "",
        ". . a # # b",
        "x-y - z - w ",
    ];
    for s in samples.iter() {
        assert_eq!(repair(s), regex_repair(&re_selectors, &re_links, s), "on {:?}", s);
    }
}

#[test]
fn repair_agrees_with_regex_rewrite_on_short_strings() {
    let (re_selectors, re_links) = rewrites();
    let alphabet = ['.', '#', ' ', '\t', '-', 'a', '1'];
    let mut digits = vec![0usize; 6];
    for len in 0..=6usize {
        let total = alphabet.len().pow(len as u32);
        for n in 0..total {
            let mut k = n;
            for d in digits.iter_mut().take(len) {
                *d = k % alphabet.len();
                k /= alphabet.len();
            }
            let s: String = digits[..len].iter().map(|&d| alphabet[d]).collect();
            let once = repair(&s);
            assert_eq!(once, regex_repair(&re_selectors, &re_links, &s), "on {:?}", s);
            assert_eq!(repair(&once), once, "twice on {:?}", s);
        }
    }
}
