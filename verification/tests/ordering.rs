//! The total order: exact outcomes, agreement with equality, antisymmetry
//! and transitivity over concrete values, and exact hash values.

use caseless_text::AsciiText;
use caseless_text::CaselessText;
use caseless_text::TextOrdering;

fn flip(o: TextOrdering) -> TextOrdering {
    match o {
        TextOrdering::Less => TextOrdering::Greater,
        TextOrdering::Equal => TextOrdering::Equal,
        TextOrdering::Greater => TextOrdering::Less,
    }
}

#[test]
fn ascii_compare_exact_outcomes() {
    let apple = AsciiText::new(String::from("apple"));
    let banana = AsciiText::new(String::from("Banana"));
    let apricot = AsciiText::new(String::from("APRICOT"));
    assert_eq!(apple.compare(&banana), TextOrdering::Less);
    assert_eq!(banana.compare(&apple), TextOrdering::Greater);
    assert_eq!(apple.compare(&apricot), TextOrdering::Less);
    assert_eq!(
        AsciiText::new(String::from("same")).compare(&AsciiText::new(String::from("SAME"))),
        TextOrdering::Equal
    );
    // a proper prefix is smaller
    assert_eq!(
        AsciiText::new(String::from("ab")).compare(&AsciiText::new(String::from("ABC"))),
        TextOrdering::Less
    );
    assert_eq!(
        AsciiText::new(String::from("")).compare(&AsciiText::new(String::from("a"))),
        TextOrdering::Less
    );
}

#[test]
fn caseless_compare_exact_outcomes() {
    let a = CaselessText::new(String::from("alpha"));
    let b = CaselessText::new(String::from("BETA"));
    assert_eq!(a.compare(&b), TextOrdering::Less);
    assert_eq!(b.compare(&a), TextOrdering::Greater);
    assert_eq!(
        CaselessText::new(String::from("HELLO")).compare(&CaselessText::new(String::from("hello"))),
        TextOrdering::Equal
    );
    // the fold decides, not the stored bytes: the capital I with dot above
    // folds to `i` followed by a combining mark, which outranks plain `i`
    let dotted = CaselessText::new(String::from("\u{130}"));
    let plain_i = CaselessText::new(String::from("i"));
    assert_eq!(dotted.compare(&plain_i), TextOrdering::Greater);
    assert_eq!(plain_i.compare(&dotted), TextOrdering::Less);
}

#[test]
fn compare_equal_iff_equals() {
    let values = [
        CaselessText::new(String::from("hello")),
        CaselessText::new(String::from("HELLO")),
        CaselessText::new_unicode(String::from("Hello")),
        CaselessText::new(String::from("world")),
        CaselessText::new(String::from("stra\u{df}e")),
        CaselessText::new(String::from("STRASSE")),
        CaselessText::new(String::from("")),
        CaselessText::new_unicode(String::from("")),
    ];
    for x in &values {
        for y in &values {
            assert_eq!(x.compare(y) == TextOrdering::Equal, x.equals(y));
            assert_eq!(x.compare(y), flip(y.compare(x)));
        }
        assert_eq!(x.compare(x), TextOrdering::Equal);
    }
}

#[test]
fn compare_transitive_on_triples() {
    let values = [
        CaselessText::new(String::from("Alpha")),
        CaselessText::new(String::from("alpine")),
        CaselessText::new(String::from("BETA")),
        CaselessText::new(String::from("beta")),
        CaselessText::new_unicode(String::from("beta")),
        CaselessText::new(String::from("caf\u{e9}")),
        CaselessText::new(String::from("CAFE")),
        CaselessText::new(String::from("")),
        CaselessText::new(String::from("\u{130}")),
        CaselessText::new(String::from("i\u{307}")),
    ];
    for x in &values {
        for y in &values {
            for z in &values {
                if x.compare(y) == TextOrdering::Less && y.compare(z) == TextOrdering::Less {
                    assert_eq!(x.compare(z), TextOrdering::Less);
                }
                if x.compare(y) == TextOrdering::Equal && y.compare(z) == TextOrdering::Equal {
                    assert_eq!(x.compare(z), TextOrdering::Equal);
                }
            }
        }
    }
}

#[test]
fn hash_exact_values() {
    // FNV-1a over 64 bits, fed the folded code points
    assert_eq!(AsciiText::new(String::from("abc")).hash(), 0xe71fa2190541574b);
    assert_eq!(AsciiText::new(String::from("ABC")).hash(), 0xe71fa2190541574b);
    assert_eq!(AsciiText::new(String::from("")).hash(), 0xcbf29ce484222325);
    assert_eq!(CaselessText::new(String::from("AbC")).hash(), 0xe71fa2190541574b);
    assert_eq!(CaselessText::new(String::from("hello world")).hash(), 0x779a65e7023cd2e7);
}
