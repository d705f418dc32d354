use genkit::filename::{filename_from_digest, generate_filename};

#[test]
fn filename_is_md5_hex_of_prompt() {
    assert_eq!(generate_filename("hello"), "5d41402abc4b2a76b9719d911017c592.png");
    assert_eq!(generate_filename(""), "d41d8cd98f00b204e9800998ecf8427e.png");
}

#[test]
fn filename_same_prompt_same_name() {
    let prompt = "a cat sitting on a windowsill at dusk";
    let first = generate_filename(prompt);
    let second = generate_filename(prompt);
    assert_eq!(first, second);
    assert_eq!(first.len(), 36);
    assert!(first.ends_with(".png"));
    assert_ne!(generate_filename("a dog"), first);
}

#[test]
fn filename_from_digest_renders_each_byte() {
    assert_eq!(filename_from_digest(&vec![0x00, 0xff, 0x0a, 0xa0]), "00ff0aa0.png");
    assert_eq!(filename_from_digest(&vec![]), ".png");
}
