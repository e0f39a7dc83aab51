//! The condition-code model: signed/unsigned equivalence and the rendered
//! mnemonic suffixes.

use x86emit::render::cc_str;
use x86emit::writer::Condition;

fn all_conditions() -> Vec<Condition> {
    vec![
        Condition::A,
        Condition::AE,
        Condition::B,
        Condition::BE,
        Condition::C,
        Condition::CXZ,
        Condition::ECXZ,
        Condition::RCXZ,
        Condition::E,
        Condition::G,
        Condition::GE,
        Condition::L,
        Condition::LE,
        Condition::NA,
        Condition::NAE,
        Condition::NB,
        Condition::NBE,
        Condition::NC,
        Condition::NE,
        Condition::NG,
        Condition::NGE,
        Condition::NL,
        Condition::NLE,
        Condition::NO,
        Condition::NP,
        Condition::NS,
        Condition::NZ,
        Condition::O,
        Condition::P,
        Condition::PE,
        Condition::PO,
        Condition::S,
        Condition::Z,
    ]
}

#[test]
fn signed_equivalent_of_above_is_greater() {
    assert_eq!(Condition::A.signed_equivalent(), Condition::G);
}

#[test]
fn unsigned_equivalent_of_greater_is_above() {
    assert_eq!(Condition::G.unsigned_equivalent(), Condition::A);
}

#[test]
fn equal_is_a_fixed_point_of_both_mappings() {
    assert_eq!(Condition::E.signed_equivalent(), Condition::E);
    assert_eq!(Condition::E.unsigned_equivalent(), Condition::E);
}

#[test]
fn the_eight_swapped_pairs() {
    let pairs = vec![
        (Condition::A, Condition::G),
        (Condition::AE, Condition::GE),
        (Condition::B, Condition::L),
        (Condition::BE, Condition::LE),
        (Condition::NA, Condition::NG),
        (Condition::NAE, Condition::NGE),
        (Condition::NB, Condition::NL),
        (Condition::NBE, Condition::NLE),
    ];
    for &(unsigned, signed) in pairs.iter() {
        assert_eq!(unsigned.signed_equivalent(), signed);
        assert_eq!(signed.unsigned_equivalent(), unsigned);
    }
}

#[test]
fn order_insensitive_conditions_are_fixed_points() {
    let swapped = vec![
        Condition::A,
        Condition::AE,
        Condition::B,
        Condition::BE,
        Condition::NA,
        Condition::NAE,
        Condition::NB,
        Condition::NBE,
        Condition::G,
        Condition::GE,
        Condition::L,
        Condition::LE,
        Condition::NG,
        Condition::NGE,
        Condition::NL,
        Condition::NLE,
    ];
    for c in all_conditions() {
        if !swapped.contains(&c) {
            assert_eq!(c.signed_equivalent(), c);
            assert_eq!(c.unsigned_equivalent(), c);
        }
    }
}

#[test]
fn condition_suffix_spellings() {
    let expected = vec![
        "a", "ae", "b", "be", "c", "cxz", "ecxz", "rcxz", "e", "g", "ge", "l", "le", "na", "nae",
        "nb", "nbe", "nc", "ne", "ng", "nge", "nl", "nle", "no", "np", "ns", "nz", "o", "p", "pe",
        "po", "s", "z",
    ];
    let all = all_conditions();
    assert_eq!(all.len(), 33);
    for (i, &c) in all.iter().enumerate() {
        assert_eq!(cc_str(c), expected[i]);
    }
}
