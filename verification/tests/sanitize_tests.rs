use doccrawl::sanitize::sanitize_filename;

const FORBIDDEN: [char; 12] = ['/', '\\', '?', '%', '*', ':', '|', '"', '<', '>', '.', ' '];

#[test]
fn replaces_separators_and_extension() {
    assert_eq!(sanitize_filename("hello/world.txt"), "hello_world_txt");
}

#[test]
fn replaces_metacharacters() {
    assert_eq!(sanitize_filename("file<with>invalid*chars"), "file_with_invalid_chars");
}

#[test]
fn replaces_every_forbidden_character() {
    let input = "a/b\\c?d%e*f:g|h\"i<j>k.l m";
    let out = sanitize_filename(input);
    assert_eq!(out, "a_b_c_d_e_f_g_h_i_j_k_l_m");
    for c in out.chars() {
        assert!(!FORBIDDEN.contains(&c));
    }
}

#[test]
fn result_never_holds_a_forbidden_character() {
    let inputs = ["", "plain", "https://docs.example.com/a?q=1#x", "..", "  ", "a%b|c"];
    for input in inputs {
        let out = sanitize_filename(input);
        for c in out.chars() {
            assert!(!FORBIDDEN.contains(&c), "forbidden char survived in {:?}", out);
        }
    }
}

#[test]
fn sanitizing_is_idempotent() {
    let inputs = ["hello/world.txt", "", "already_clean", "a b.c:d", "page_https___x"];
    for input in inputs {
        let once = sanitize_filename(input);
        let twice = sanitize_filename(&once);
        assert_eq!(once, twice);
    }
}

#[test]
fn keeps_unicode_characters() {
    assert_eq!(sanitize_filename("héllo wörld"), "héllo_wörld");
}

#[test]
fn empty_input_gives_empty_output() {
    assert_eq!(sanitize_filename(""), "");
}
