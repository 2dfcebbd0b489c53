use hangman::letters::{char_to_index, normalize_guess, to_upper};

fn chars(s: &str) -> Vec<char> {
    s.chars().collect()
}

#[test]
fn to_upper_moves_lowercase_up_and_leaves_the_rest() {
    assert_eq!(to_upper('a'), 'A');
    assert_eq!(to_upper('z'), 'Z');
    assert_eq!(to_upper('m'), 'M');
    assert_eq!(to_upper('Q'), 'Q');
    assert_eq!(to_upper('1'), '1');
    assert_eq!(to_upper('_'), '_');
}

#[test]
fn char_to_index_maps_the_alphabet_and_flags_the_rest() {
    assert_eq!(char_to_index('A'), 0);
    assert_eq!(char_to_index('Z'), 25);
    assert_eq!(char_to_index('N'), 13);
    assert_eq!(char_to_index('a'), 255);
    assert_eq!(char_to_index('@'), 255);
    assert_eq!(char_to_index('['), 255);
    assert_eq!(char_to_index('1'), 255);
}

#[test]
fn normalize_accepts_a_single_letter_in_any_case() {
    assert_eq!(normalize_guess(&chars("x")), Some('X'));
    assert_eq!(normalize_guess(&chars("X")), Some('X'));
    assert_eq!(normalize_guess(&chars(" g ")), Some('G'));
    assert_eq!(normalize_guess(&chars("\tq\n")), Some('Q'));
}

#[test]
fn normalize_rejects_everything_else() {
    assert_eq!(normalize_guess(&chars("")), None);
    assert_eq!(normalize_guess(&chars("   ")), None);
    assert_eq!(normalize_guess(&chars("ab")), None);
    assert_eq!(normalize_guess(&chars("1")), None);
    assert_eq!(normalize_guess(&chars("$")), None);
    assert_eq!(normalize_guess(&chars(" a b ")), None);
    assert_eq!(normalize_guess(&chars("x!")), None);
}
