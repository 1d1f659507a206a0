use comparator::gen_help_msg;

#[test]
fn test_help_message_exact() {
    let name = "comparator";
    let version = "0.1.0";
    let expected = format!(
        "\n{} {} - Compare numbers or text values\n\nUsage: \n    {}  <VALUE1> <VALUE2>\n\nArguments:\n    <VALUE1>    First value to compare (number or text)\n    <VALUE2>    Second value to compare (number or text)\n\nComparison Rules:\n    - Numbers are compared mathematically (>, <, ==)\n    - Text is compared lexicographically (==, !=)\n    - Mixed types are converted to strings and compared\n\nExamples: \n    {} 10 20\n    {} 'hello' 'world'\n    {} 5 '5'\n    ",
        name, version, name, name, name, name
    );
    assert_eq!(expected, gen_help_msg(name, version));
}

#[test]
fn test_help_message_substitutes_every_slot() {
    let msg = gen_help_msg("cmp", "9.9.9");
    assert_eq!(5, msg.matches("cmp").count());
    assert_eq!(1, msg.matches("9.9.9").count());
}
