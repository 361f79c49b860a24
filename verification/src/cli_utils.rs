//! Parsing and validation of the two commands the command-line surface
//! accepts: `shorten <URL>` and `lengthen <short_id>`.

use vstd::prelude::*;

verus! {

/// A command accepted by the command-line surface.
#[derive(Debug, PartialEq, Eq)]
pub enum ShortyCommand {
    /// Command to lengthen the provided short ID. The variant stores the short
    /// ID provided by the user.
    Lengthen(String),
    /// Command to shorten the provided URL. The variant stores the full URL
    /// that the user wants to shorten.
    Shorten(String),
}

/// The arguments the tool was invoked with, after validation.
pub struct ShortyArgs {
    /// The command to execute.
    pub command: ShortyCommand,
}

/// A character allowed in the body of a URL: anything but a space or a double
/// quote.
pub open spec fn spec_url_char(c: char) -> bool {
    c != ' ' && c != '"'
}

/// The string starts with the scheme prefix `http://`.
pub open spec fn spec_http_prefix(s: Seq<char>) -> bool {
    s.len() > 7 && s[0] == 'h' && s[1] == 't' && s[2] == 't' && s[3] == 'p'
        && s[4] == ':' && s[5] == '/' && s[6] == '/'
}

/// The string starts with the scheme prefix `https://`.
pub open spec fn spec_https_prefix(s: Seq<char>) -> bool {
    s.len() > 8 && s[0] == 'h' && s[1] == 't' && s[2] == 't' && s[3] == 'p'
        && s[4] == 's' && s[5] == ':' && s[6] == '/' && s[7] == '/'
}

/// Every character from position `from` on is allowed in a URL body.
pub open spec fn spec_url_tail(s: Seq<char>, from: int) -> bool {
    forall|i: int| from <= i < s.len() ==> spec_url_char(s[i])
}

/// A well-formed URL: the whole string consists of `http://` or `https://`
/// followed by one or more characters, none of which is a space or a double
/// quote.
pub open spec fn spec_valid_url(s: Seq<char>) -> bool {
    ||| (spec_http_prefix(s) && spec_url_tail(s, 7))
    ||| (spec_https_prefix(s) && spec_url_tail(s, 8))
}

impl ShortyArgs {
    /// Checks if the provided test string is a valid URL.
    pub fn is_valid_url(test_string: &str) -> (valid: bool)
        ensures
            valid == spec_valid_url(test_string@),
    {
        let n = test_string.unicode_len();
        if n < 8 {
            return false;
        }
        if !(test_string.get_char(0) == 'h' && test_string.get_char(1) == 't'
            && test_string.get_char(2) == 't' && test_string.get_char(3) == 'p')
        {
            return false;
        }
        let start: usize;
        if test_string.get_char(4) == 's' {
            if n < 9 {
                return false;
            }
            if !(test_string.get_char(5) == ':' && test_string.get_char(6) == '/'
                && test_string.get_char(7) == '/')
            {
                return false;
            }
            start = 8;
        } else {
            if !(test_string.get_char(4) == ':' && test_string.get_char(5) == '/'
                && test_string.get_char(6) == '/')
            {
                return false;
            }
            start = 7;
        }
        let mut i: usize = start;
        while i < n
            invariant
                start <= i <= n,
                n == test_string@.len(),
                start == 7 || start == 8,
                start == 7 ==> spec_http_prefix(test_string@) && !spec_https_prefix(test_string@),
                start == 8 ==> spec_https_prefix(test_string@) && !spec_http_prefix(test_string@),
                forall|j: int| start <= j < i ==> spec_url_char(test_string@[j]),
            decreases n - i,
        {
            let c = test_string.get_char(i);
            if c == ' ' || c == '"' {
                return false;
            }
            i += 1;
        }
        true
    }

    /// Builds the arguments from the strings the tool was invoked with. The
    /// first entry is the executable's own name and is ignored; then a command
    /// and its positional argument are expected. A `shorten` command is
    /// accepted only with a valid URL; a `lengthen` command takes the short ID
    /// as it is.
    pub fn build(args: Vec<String>) -> (res: Result<ShortyArgs, &'static str>)
        ensures
            res is Ok <==> (args@.len() >= 3 && (args@[1]@ == "lengthen"@ || (args@[1]@
                == "shorten"@ && spec_valid_url(args@[2]@)))),
            res matches Ok(built) ==> {
                ||| (built.command matches ShortyCommand::Lengthen(id) && id@ == args@[2]@
                    && args@[1]@ == "lengthen"@)
                ||| (built.command matches ShortyCommand::Shorten(url) && url@ == args@[2]@
                    && args@[1]@ == "shorten"@ && spec_valid_url(args@[2]@))
            },
    {
        proof {
            reveal_strlit("lengthen");
            reveal_strlit("shorten");
        }
        // The entry at index zero is the name of the executable.
        if args.len() < 2 {
            return Err("command positional argument was not found");
        }
        if args.len() < 3 {
            return Err("command_arg positional argument was not found");
        }
        let lengthen_cmd: String = "lengthen".to_owned();
        let shorten_cmd: String = "shorten".to_owned();
        if args[1] == lengthen_cmd {
            Ok(ShortyArgs { command: ShortyCommand::Lengthen(args[2].clone()) })
        } else if args[1] == shorten_cmd {
            if Self::is_valid_url(args[2].as_str()) {
                Ok(ShortyArgs { command: ShortyCommand::Shorten(args[2].clone()) })
            } else {
                Err("invalid URL format")
            }
        } else {
            Err("invalid command")
        }
    }
}

} // verus!
