use vstd::prelude::*;
use vstd::string::StringExecFns;

verus! {

/// The usage message shown when the program is not given exactly two
/// operands, with the program's name and version filled in.
pub open spec fn help_message(name: Seq<char>, version: Seq<char>) -> Seq<char> {
    "\n"@ + name + " "@ + version + " - Compare numbers or text values\n\nUsage: \n    "@ + name
        + "  <VALUE1> <VALUE2>\n\nArguments:\n    <VALUE1>    First value to compare (number or text)\n    <VALUE2>    Second value to compare (number or text)\n\nComparison Rules:\n    - Numbers are compared mathematically (>, <, ==)\n    - Text is compared lexicographically (==, !=)\n    - Mixed types are converted to strings and compared\n\nExamples: \n    "@
        + name + " 10 20\n    "@ + name + " 'hello' 'world'\n    "@ + name + " 5 '5'\n    "@
}

/// Renders the usage message for the given program name and version.
pub fn gen_help_msg(name: &str, version: &str) -> (r: String)
    ensures
        r@ == help_message(name@, version@),
{
    let mut r = "\n".to_owned();
    r.append(name);
    r.append(" ");
    r.append(version);
    r.append(" - Compare numbers or text values\n\nUsage: \n    ");
    r.append(name);
    r.append(
        "  <VALUE1> <VALUE2>\n\nArguments:\n    <VALUE1>    First value to compare (number or text)\n    <VALUE2>    Second value to compare (number or text)\n\nComparison Rules:\n    - Numbers are compared mathematically (>, <, ==)\n    - Text is compared lexicographically (==, !=)\n    - Mixed types are converted to strings and compared\n\nExamples: \n    ",
    );
    r.append(name);
    r.append(" 10 20\n    ");
    r.append(name);
    r.append(" 'hello' 'world'\n    ");
    r.append(name);
    r.append(" 5 '5'\n    ");
    r
}

} // verus!
