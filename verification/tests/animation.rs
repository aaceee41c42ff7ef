use all_an::animation_tick;
use all_an::calculate_column_position;
use all_an::generate_char_style;
use all_an::generate_column_style;
use all_an::generate_matrix_config;
use all_an::get_random_char;
use all_an::terminal::echo_command;
use all_an::terminal::welcome_message;
use all_an::DEFAULT_CHARSET;

#[test]
fn test_animation_tick_keeps_length_and_set() {
    let mut texts: Vec<String> = (0..200).map(|_| String::from("A")).collect();
    animation_tick(&mut texts, "XY");
    assert_eq!(texts.len(), 200);
    for t in &texts {
        assert!(t == "A" || t == "X" || t == "Y", "unexpected text: {}", t);
    }
}

#[test]
fn test_animation_tick_eventually_replaces() {
    // With a one-in-ten chance per entry per tick, 200 ticks over 50 entries
    // leave the chance of no replacement at all far below any practical odds.
    let mut texts: Vec<String> = (0..50).map(|_| String::from("A")).collect();
    for _ in 0..200 {
        animation_tick(&mut texts, "Z");
    }
    assert!(texts.iter().any(|t| t == "Z"), "no glyph was ever replaced");
}

#[test]
fn test_animation_tick_empty_set_changes_nothing() {
    let mut texts: Vec<String> = vec![String::from("A"), String::from("B")];
    for _ in 0..100 {
        animation_tick(&mut texts, "");
    }
    assert_eq!(texts, vec![String::from("A"), String::from("B")]);
}

#[test]
fn test_animation_tick_empty_node_list() {
    let mut texts: Vec<String> = Vec::new();
    animation_tick(&mut texts, DEFAULT_CHARSET);
    assert!(texts.is_empty());
}

#[test]
fn test_get_random_char_katakana_membership() {
    for _ in 0..50 {
        let ch = get_random_char(DEFAULT_CHARSET).unwrap();
        assert!(DEFAULT_CHARSET.contains(&ch), "glyph {} not in the default set", ch);
    }
}

#[test]
fn test_calculate_column_position_negative() {
    // Truncation toward zero, as the product with 3.33 truncates.
    assert_eq!(calculate_column_position(-1), -3);
    assert_eq!(calculate_column_position(-10), -33);
}

#[test]
fn test_generate_char_style_negative_and_extremes() {
    assert_eq!(generate_char_style(-5), "animation-delay: -5ms;");
    assert_eq!(generate_char_style(2147483647), "animation-delay: 2147483647ms;");
    assert_eq!(generate_char_style(-2147483648), "animation-delay: -2147483648ms;");
}

#[test]
fn test_generate_column_style_more_values() {
    assert_eq!(
        generate_column_style(96, 3000, 6000),
        "left: 96%; animation-delay: 3000ms; animation-duration: 6000ms;"
    );
}

#[test]
fn test_generate_matrix_config_zero_columns() {
    let config = generate_matrix_config(0, "A");
    assert_eq!(config.columns().len(), 0);
    assert_eq!(config.charset(), "A");
}

#[test]
fn test_config_positions_follow_formula() {
    // Two independent runs agree on every deterministic part of the layout.
    let a = generate_matrix_config(12, "01");
    let b = generate_matrix_config(12, "01");
    let a_cols = a.columns();
    let b_cols = b.columns();
    assert_eq!(a_cols.len(), b_cols.len());
    for (i, (ca, cb)) in a_cols.iter().zip(b_cols.iter()).enumerate() {
        assert_eq!(ca.position(), calculate_column_position(i as i32));
        assert_eq!(ca.position(), cb.position());
    }
}

#[test]
fn test_column_glyph_delays_are_ordinals() {
    let column = all_an::create_matrix_column_data(3, "0");
    for (i, g) in column.chars().iter().enumerate() {
        assert_eq!(g.animation_delay(), i as i32 * 100);
        assert_eq!(g.character(), "0");
    }
}

#[test]
fn test_welcome_message() {
    assert_eq!(welcome_message(), "Welcome to Rust Terminal!");
}

#[test]
fn test_echo_command() {
    let mut output = vec![welcome_message()];
    echo_command(&mut output, "ls -la");
    assert_eq!(
        output,
        vec![
            String::from("Welcome to Rust Terminal!"),
            String::from("$ ls -la"),
            String::from("You typed: ls -la"),
        ]
    );
}
