use azalea_bridge::chunk::{byte_len, format_message, FRAGMENT_LIMIT};

fn line(name: &str, msg: &str) -> String {
    format!("{name}: {msg}")
}

#[test]
fn chunk_no_split() {
    let out = format_message("bob".to_string(), "hello".to_string());
    assert_eq!(out, vec!["bob: hello".to_string()]);
}

#[test]
fn chunk_empty_name_and_text() {
    let out = format_message(String::new(), String::new());
    assert_eq!(out, vec![": ".to_string()]);
}

#[test]
fn chunk_three_hundred_letters() {
    let body = "x".repeat(300);
    let out = format_message("A".to_string(), body.clone());
    assert_eq!(out.len(), 2);
    assert_eq!(out[0].len(), 254);
    assert_eq!(out[0], format!("A: {}", "x".repeat(251)));
    assert_eq!(out[1], "x".repeat(49));
    assert_eq!(out.concat(), line("A", &body));
}

#[test]
fn chunk_line_of_exactly_the_limit_is_one_fragment() {
    let body = "y".repeat(254 - 3);
    let out = format_message("n".to_string(), body.clone());
    assert_eq!(out, vec![line("n", &body)]);
    assert_eq!(out[0].len(), FRAGMENT_LIMIT);
}

#[test]
fn chunk_line_one_over_the_limit() {
    let body = "y".repeat(255 - 3);
    let out = format_message("n".to_string(), body.clone());
    assert_eq!(out.len(), 2);
    assert_eq!(out[0].len(), 254);
    assert_eq!(out[1], "y");
}

#[test]
fn chunk_twice_the_limit_gives_two_full_fragments() {
    let body = "z".repeat(508 - 3);
    let out = format_message("n".to_string(), body.clone());
    assert_eq!(out.len(), 2);
    assert_eq!(out[0].len(), 254);
    assert_eq!(out[1].len(), 254);
    assert_eq!(out.concat(), line("n", &body));
}

#[test]
fn chunk_long_line_keeps_order_and_bound() {
    let body: String = (0..2000).map(|i| char::from(b'a' + (i % 26) as u8)).collect();
    let out = format_message("someone".to_string(), body.clone());
    assert_eq!(out.len(), (2009 + 253) / 254);
    for (i, fragment) in out.iter().enumerate() {
        assert!(fragment.len() <= 254);
        if i + 1 < out.len() {
            assert_eq!(fragment.len(), 254);
        }
    }
    assert_eq!(out.concat(), line("someone", &body));
}

#[test]
fn chunk_steps_back_where_a_character_lies_across_the_cut() {
    // "n: " takes 3 bytes, 250 letters reach offset 253, and the two bytes of
    // 'é' would lie across offset 254.
    let body = format!("{}é{}", "a".repeat(250), "b".repeat(10));
    let out = format_message("n".to_string(), body.clone());
    assert_eq!(out.len(), 2);
    assert_eq!(out[0].len(), 253);
    assert_eq!(out[0], format!("n: {}", "a".repeat(250)));
    assert_eq!(out[1], format!("é{}", "b".repeat(10)));
    assert_eq!(out.concat(), line("n", &body));
}

#[test]
fn chunk_of_four_byte_characters() {
    let body = "😀".repeat(200);
    let out = format_message("n".to_string(), body.clone());
    for fragment in out.iter() {
        assert!(fragment.len() <= 254);
        assert!(fragment.len() >= 251 || fragment == out.last().unwrap());
    }
    // 3 bytes of "n: " and 62 characters of 4 bytes make 251 bytes.
    assert_eq!(out[0].len(), 251);
    assert_eq!(out.concat(), line("n", &body));
}

#[test]
fn byte_len_counts_bytes() {
    assert_eq!(byte_len(""), 0);
    assert_eq!(byte_len("abc"), 3);
    assert_eq!(byte_len("é"), 2);
    assert_eq!(byte_len("😀"), 4);
}
