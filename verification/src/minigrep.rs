//! Searching a text for the lines that hold a query.

use crate::text::{contains, lines, lowercase, occurs_in, split_lines, texts, to_lowercase};
use vstd::prelude::*;

verus! {

/// What to search for, where, and how.
#[derive(Debug, PartialEq)]
pub struct Config {
    /// The text to look for.
    pub query: String,
    /// The name of the file to search.
    pub filename: String,
    /// Whether upper and lower case differ.
    pub case_sensitive: bool,
}

impl Config {
    /// Reads a configuration off the arguments of a command line: the name
    /// of the program, then the query, then the name of the file; what
    /// follows is ignored. `case_sensitive` is taken over as it is.
    pub fn new(args: Vec<String>, case_sensitive: bool) -> (r: Result<Config, &'static str>)
        ensures
            match r {
                Ok(config) => {
                    &&& args@.len() >= 3
                    &&& config.query@ == args@[1]@
                    &&& config.filename@ == args@[2]@
                    &&& config.case_sensitive == case_sensitive
                },
                Err(message) => {
                    &&& args@.len() < 3
                    &&& message@ == if args@.len() < 2 {
                        "Didn't get a query string"@
                    } else {
                        "Didn't get a file name"@
                    }
                },
            },
    {
        let mut args = args;
        if args.len() < 2 {
            return Err("Didn't get a query string");
        }
        if args.len() < 3 {
            return Err("Didn't get a file name");
        }
        let filename = args.remove(2);
        let query = args.remove(1);
        Ok(Config { query, filename, case_sensitive })
    }
}

/// The lines of `contents` in which `query` occurs, in their order.
pub fn search<'a>(query: &str, contents: &'a str) -> (found: Vec<&'a str>)
    ensures
        texts(found@) == lines(contents@).filter(|line: Seq<char>| occurs_in(query@, line)),
{
    let all = split_lines(contents);
    let ghost wanted = |line: Seq<char>| occurs_in(query@, line);
    let mut found: Vec<&'a str> = Vec::new();
    let mut i: usize = 0;
    proof {
        reveal(Seq::filter);
        assert(texts(all@).take(0) =~= Seq::<Seq<char>>::empty());
    }
    while i < all.len()
        invariant
            i <= all.len(),
            wanted == |line: Seq<char>| occurs_in(query@, line),
            texts(found@) == texts(all@).take(i as int).filter(wanted),
        decreases all.len() - i,
    {
        let line = all[i];
        proof {
            reveal(Seq::filter);
            let next = texts(all@).take(i + 1);
            assert(next.drop_last() =~= texts(all@).take(i as int));
            assert(next.last() == line@);
            assert(texts(found@.push(line)) =~= texts(found@).push(line@));
        }
        if contains(line, query) {
            found.push(line);
        }
        i = i + 1;
    }
    proof {
        assert(texts(all@).take(i as int) =~= texts(all@));
    }
    found
}

/// The lines of `contents` in which `query` occurs when both are taken in
/// lower case, in their order.
pub fn search_case_insensitive<'a>(query: &str, contents: &'a str) -> (found: Vec<&'a str>)
    ensures
        texts(found@) == lines(contents@).filter(
            |line: Seq<char>| occurs_in(lowercase(query@), lowercase(line)),
        ),
{
    let all = split_lines(contents);
    let query = to_lowercase(query);
    let ghost wanted = |line: Seq<char>| occurs_in(query@, lowercase(line));
    let mut found: Vec<&'a str> = Vec::new();
    let mut i: usize = 0;
    proof {
        reveal(Seq::filter);
        assert(texts(all@).take(0) =~= Seq::<Seq<char>>::empty());
    }
    while i < all.len()
        invariant
            i <= all.len(),
            wanted == |line: Seq<char>| occurs_in(query@, lowercase(line)),
            texts(found@) == texts(all@).take(i as int).filter(wanted),
        decreases all.len() - i,
    {
        let line = all[i];
        proof {
            reveal(Seq::filter);
            let next = texts(all@).take(i + 1);
            assert(next.drop_last() =~= texts(all@).take(i as int));
            assert(next.last() == line@);
            assert(texts(found@.push(line)) =~= texts(found@).push(line@));
        }
        let lower = to_lowercase(line);
        if contains(lower.as_str(), query.as_str()) {
            found.push(line);
        }
        i = i + 1;
    }
    proof {
        assert(texts(all@).take(i as int) =~= texts(all@));
    }
    found
}

/// The lines of `contents` that match the query of `config`: with regard to
/// case where `config` says so, without it otherwise.
pub fn run<'a>(config: &Config, contents: &'a str) -> (found: Vec<&'a str>)
    ensures
        texts(found@) == lines(contents@).filter(
            |line: Seq<char>|
                if config.case_sensitive {
                    occurs_in(config.query@, line)
                } else {
                    occurs_in(lowercase(config.query@), lowercase(line))
                },
        ),
{
    if config.case_sensitive {
        let found = search(config.query.as_str(), contents);
        proof {
            assert((|line: Seq<char>| occurs_in(config.query@, line)) =~= (|line: Seq<char>|
                if config.case_sensitive {
                    occurs_in(config.query@, line)
                } else {
                    occurs_in(lowercase(config.query@), lowercase(line))
                }));
        }
        found
    } else {
        let found = search_case_insensitive(config.query.as_str(), contents);
        proof {
            assert((|line: Seq<char>| occurs_in(lowercase(config.query@), lowercase(line)))
                =~= (|line: Seq<char>|
                if config.case_sensitive {
                    occurs_in(config.query@, line)
                } else {
                    occurs_in(lowercase(config.query@), lowercase(line))
                }));
        }
        found
    }
}

} // verus!
