use blop::text::{chars_of, layout_name, lines};

fn owned(items: &[&str]) -> Vec<String> {
    items.iter().map(|s| s.to_string()).collect()
}

#[test]
fn chars_of_gives_each_character() {
    assert_eq!(chars_of("aé\n"), vec!['a', 'é', '\n']);
    assert_eq!(chars_of(""), Vec::<char>::new());
}

#[test]
fn lines_of_tool_output() {
    assert_eq!(lines("UTC\nEurope/Oslo\n"), owned(&["UTC", "Europe/Oslo"]));
}

#[test]
fn lines_of_empty_text_is_empty() {
    assert_eq!(lines(""), Vec::<String>::new());
}

#[test]
fn lines_without_final_line_feed() {
    assert_eq!(lines("UTC\nEurope/Oslo"), owned(&["UTC", "Europe/Oslo"]));
    assert_eq!(lines("UTC"), owned(&["UTC"]));
}

#[test]
fn lines_keeps_empty_lines() {
    assert_eq!(lines("a\n\nb\n"), owned(&["a", "", "b"]));
    assert_eq!(lines("\n"), owned(&[""]));
    assert_eq!(lines("\n\n"), owned(&["", ""]));
}

#[test]
fn lines_drops_carriage_return_before_line_feed() {
    assert_eq!(lines("a\r\nb\r\n"), owned(&["a", "b"]));
    assert_eq!(lines("\r\n"), owned(&[""]));
    assert_eq!(lines("a\r\r\n"), owned(&["a\r"]));
}

#[test]
fn lines_keeps_other_carriage_returns() {
    assert_eq!(lines("a\rb"), owned(&["a\rb"]));
    assert_eq!(lines("a\r"), owned(&["a\r"]));
    assert_eq!(lines("x\na\r"), owned(&["x", "a\r"]));
}

#[test]
fn lines_of_text_beyond_ascii() {
    assert_eq!(lines("Zürich\nKøbenhavn\n東京"), owned(&["Zürich", "København", "東京"]));
}

#[test]
fn lines_agrees_with_std() {
    let samples = [
        "",
        "\n",
        "\r",
        "\r\n",
        "a",
        "a\n",
        "a\nb",
        "a\r\nb\r\n",
        "\n\na\n\n",
        "a\r\n\rb\n\r",
        "Africa/Abidjan\nAfrica/Accra\nUTC\n",
        "é\r\nü\n",
    ];
    for sample in samples {
        let expected: Vec<String> = sample.lines().map(String::from).collect();
        assert_eq!(lines(sample), expected);
    }
}

#[test]
fn layout_name_of_a_keymap_path() {
    assert_eq!(layout_name("/usr/share/kbd/keymaps/i386/qwerty/us.map.gz"), "us");
    assert_eq!(layout_name("/usr/share/kbd/keymaps/i386/qwertz/de-latin1.map.gz"), "de-latin1");
}

#[test]
fn layout_name_without_directory() {
    assert_eq!(layout_name("us.map.gz"), "us");
}

#[test]
fn layout_name_without_suffix_is_the_base_name() {
    assert_eq!(layout_name("dir/plain"), "plain");
    assert_eq!(layout_name("dir/us.map"), "us.map");
    assert_eq!(layout_name("map.gz"), "map.gz");
}

#[test]
fn layout_name_strips_the_suffix_once_and_only_at_the_end() {
    assert_eq!(layout_name("/k/x.map.gz.map.gz"), "x.map.gz");
    assert_eq!(layout_name("/k/a.map.gz.b"), "a.map.gz.b");
}

#[test]
fn layout_name_of_edge_paths() {
    assert_eq!(layout_name(""), "");
    assert_eq!(layout_name("a/b/"), "");
    assert_eq!(layout_name("/k/.map.gz"), "");
    assert_eq!(layout_name("us.map.gz/"), "");
    assert_eq!(layout_name("/keymaps/ñ.map.gz"), "ñ");
}
