use password_bot::generator::{and_value_for, generate_password, Generated};

fn allowed_chars(lowercase: bool, uppercase: bool, numbers: bool, symbols: bool) -> String {
    let mut allowed = String::new();
    if lowercase {
        allowed.push_str("qwertyuiopasdfghjklzxcvbnm");
    }
    if uppercase {
        allowed.push_str("QWERTYUIOPASDFGHJKLZXCVBNM");
    }
    if numbers {
        allowed.push_str("1234567890");
    }
    if symbols {
        allowed.push_str("!@#$%^&*()_+=-[]{};:'\"\\|,./~");
    }
    allowed
}

#[test]
fn password_has_requested_length_and_alphabet() {
    let combos = [
        (true, false, false, false),
        (false, true, false, false),
        (false, false, true, false),
        (false, false, false, true),
        (true, false, true, false),
        (true, true, true, false),
        (true, true, true, true),
    ];
    for &(lo, up, num, sym) in combos.iter() {
        for &len in [1u8, 2, 7, 16, 91, 255].iter() {
            match generate_password(len, lo, up, num, sym) {
                Generated::Password(s) => {
                    let chars: Vec<char> = s.chars().collect();
                    assert_eq!(chars.len(), len as usize + 2);
                    assert_eq!(chars[0], '`');
                    assert_eq!(chars[chars.len() - 1], '`');
                    let allowed = allowed_chars(lo, up, num, sym);
                    let forbidden = allowed_chars(!lo, !up, !num, !sym);
                    for &c in chars[1..chars.len() - 1].iter() {
                        assert!(allowed.contains(c), "character {:?} outside alphabet", c);
                        assert!(!forbidden.contains(c), "character {:?} from a disabled class", c);
                    }
                },
                Generated::NoClasses => panic!("expected a password"),
            }
        }
    }
}

#[test]
fn all_classes_disabled_yields_validation_result() {
    assert!(matches!(
        generate_password(10, false, false, false, false),
        Generated::NoClasses
    ));
    assert!(matches!(
        generate_password(255, false, false, false, false),
        Generated::NoClasses
    ));
}

#[test]
fn mask_is_smallest_covering_power_of_two_minus_one() {
    for max in 1u8..=91 {
        let expected = *[15u8, 31, 63, 127]
            .iter()
            .find(|&&m| m as u16 >= max as u16 - 1)
            .unwrap();
        assert_eq!(and_value_for(max), expected, "wrong mask for max = {}", max);
    }
}

#[test]
fn single_class_sampling_is_uniform() {
    let digits = "1234567890";
    let mut counts = [0usize; 10];
    for _ in 0..200 {
        match generate_password(50, false, false, true, false) {
            Generated::Password(s) => {
                for c in s.chars() {
                    if c != '`' {
                        counts[digits.find(c).unwrap()] += 1;
                    }
                }
            },
            Generated::NoClasses => panic!("expected a password"),
        }
    }
    let total: usize = counts.iter().sum();
    assert_eq!(total, 10000);
    let expected = total as f64 / 10.0;
    let chi_square: f64 = counts
        .iter()
        .map(|&c| {
            let d = c as f64 - expected;
            d * d / expected
        })
        .sum();
    assert!(
        chi_square < 80.0,
        "sampling looks biased: chi-square {} over counts {:?}",
        chi_square,
        counts
    );
}
