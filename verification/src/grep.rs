//! Line-oriented text search: split a text into its lines and keep the lines
//! that contain a query, either exactly or after case folding.

use vstd::prelude::*;
use crate::strings::{first_index_of, lemma_first_index_of, lemma_first_index_of_is, lower_of,
    lowercase, spec_contains, str_contains, str_eq};

verus! {

/// A line segment loses one trailing carriage return, so that a `\r\n` line
/// ending is treated like a bare `\n`.
pub open spec fn strip_cr(line: Seq<char>) -> Seq<char> {
    if line.len() > 0 && line[line.len() - 1] == '\r' {
        line.drop_last()
    } else {
        line
    }
}

/// The lines of `s`: segments split at each line feed, each segment losing a
/// carriage return left directly before the line feed. A final segment with
/// no line feed is kept as it stands; a trailing line feed adds no segment.
pub open spec fn spec_lines(s: Seq<char>) -> Seq<Seq<char>>
    decreases s.len(),
    via spec_lines_decreases
{
    if s.len() == 0 {
        Seq::empty()
    } else {
        let i = first_index_of(s, '\n');
        if i == s.len() {
            seq![s]
        } else {
            seq![strip_cr(s.subrange(0, i))] + spec_lines(s.subrange(i + 1, s.len() as int))
        }
    }
}

#[via_fn]
proof fn spec_lines_decreases(s: Seq<char>) {
    lemma_first_index_of(s, '\n');
}

/// Split `s` into its lines, as slices of `s`.
pub fn split_lines<'a>(s: &'a str) -> (r: Vec<&'a str>)
    ensures
        r@.map_values(|t: &str| t@) =~= spec_lines(s@),
{
    let len = s.unicode_len();
    let mut r: Vec<&'a str> = Vec::new();
    let mut start: usize = 0;
    let mut i: usize = 0;
    proof {
        assert(s@.subrange(0, len as int) =~= s@);
    }
    while i < len
        invariant
            len == s@.len(),
            start <= i <= len,
            forall|k: int| start <= k < i ==> s@[k] != '\n',
            r@.map_values(|t: &str| t@) + spec_lines(s@.subrange(start as int, len as int))
                =~= spec_lines(s@),
        decreases len - i,
    {
        if s.get_char(i) == '\n' {
            let ghost rest = s@.subrange(start as int, len as int);
            proof {
                lemma_first_index_of_is(rest, '\n', i - start);
            }
            let end = if i > start && s.get_char(i - 1) == '\r' {
                i - 1
            } else {
                i
            };
            let line = s.substring_char(start, end);
            proof {
                assert(rest.subrange(0, i - start) =~= s@.subrange(start as int, i as int));
                assert(strip_cr(rest.subrange(0, i - start)) =~= s@.subrange(
                    start as int,
                    end as int,
                ));
                assert(rest.subrange(i - start + 1, rest.len() as int) =~= s@.subrange(
                    i + 1,
                    len as int,
                ));
                assert(spec_lines(rest) =~= seq![line@] + spec_lines(
                    s@.subrange(i + 1, len as int),
                ));
            }
            let ghost r0 = r@;
            r.push(line);
            proof {
                assert(r@.map_values(|t: &str| t@) =~= r0.map_values(|t: &str| t@).push(line@));
            }
            start = i + 1;
        }
        i = i + 1;
    }
    if start < len {
        let ghost rest = s@.subrange(start as int, len as int);
        proof {
            lemma_first_index_of_is(rest, '\n', len - start);
        }
        let line = s.substring_char(start, len);
        proof {
            assert(rest =~= line@);
            assert(spec_lines(rest) =~= seq![line@]);
        }
        let ghost r0 = r@;
        r.push(line);
        proof {
            assert(r@.map_values(|t: &str| t@) =~= r0.map_values(|t: &str| t@).push(line@));
        }
    } else {
        proof {
            assert(s@.subrange(start as int, len as int).len() == 0);
        }
    }
    r
}

/// A parsed search request: what to look for, where, and how.
#[derive(Debug)]
pub struct Config {
    /// The text to search for.
    pub query: String,
    /// The file whose contents are searched; reading it is the caller's job.
    pub filename: String,
    /// Whether the search compares text exactly or after case folding.
    pub case_sensitive: bool,
}

impl Config {
    /// Build a configuration from the command-line arguments (program name
    /// first) and from whether the caller's environment asks for a
    /// case-insensitive search. A fourth argument, when present, must spell a
    /// boolean and overrides the environment's choice.
    pub fn new(args: &Vec<String>, case_insensitive_env: bool) -> (r: Result<
        Config,
        &'static str,
    >)
        requires
            args@.len() > 3 ==> args@[3]@ == "true"@ || args@[3]@ == "false"@,
        ensures
            args@.len() < 2 ==> (r matches Err(e) && e@ == "Didn't get a query string"@),
            args@.len() == 2 ==> (r matches Err(e) && e@ == "Didn't get a file name"@),
            args@.len() > 2 ==> (r matches Ok(c) && {
                &&& c.query@ == args@[1]@
                &&& c.filename@ == args@[2]@
                &&& c.case_sensitive == if args@.len() > 3 {
                    args@[3]@ == "true"@
                } else {
                    !case_insensitive_env
                }
            }),
    {
        if args.len() < 2 {
            return Err("Didn't get a query string");
        }
        if args.len() < 3 {
            return Err("Didn't get a file name");
        }
        let query = args[1].clone();
        let filename = args[2].clone();
        let case_sensitive = if args.len() > 3 {
            str_eq(args[3].as_str(), "true")
        } else {
            !case_insensitive_env
        };
        Ok(Config { query, filename, case_sensitive })
    }
}

/// The lines among `lines` that contain `query`, in order.
pub open spec fn matching_lines(lines: Seq<Seq<char>>, query: Seq<char>) -> Seq<Seq<char>>
    decreases lines.len(),
{
    if lines.len() == 0 {
        Seq::empty()
    } else if spec_contains(lines[0], query) {
        seq![lines[0]] + matching_lines(lines.drop_first(), query)
    } else {
        matching_lines(lines.drop_first(), query)
    }
}

/// The lines among `lines` whose case-folded text contains the case-folded
/// query, in order.
pub open spec fn ci_matching_lines(lines: Seq<Seq<char>>, query: Seq<char>) -> Seq<Seq<char>>
    decreases lines.len(),
{
    if lines.len() == 0 {
        Seq::empty()
    } else if spec_contains(lower_of(lines[0]), lower_of(query)) {
        seq![lines[0]] + ci_matching_lines(lines.drop_first(), query)
    } else {
        ci_matching_lines(lines.drop_first(), query)
    }
}

/// Case-sensitive search: the lines of `contents` that contain `query`, in
/// the order in which they stand in the text.
pub fn search<'a>(query: &str, contents: &'a str) -> (r: Vec<&'a str>)
    ensures
        r@.map_values(|t: &str| t@) =~= matching_lines(spec_lines(contents@), query@),
{
    let lines = split_lines(contents);
    let ghost all = lines@.map_values(|t: &str| t@);
    let mut r: Vec<&'a str> = Vec::new();
    let mut i: usize = 0;
    proof {
        assert(all.subrange(0, all.len() as int) =~= all);
    }
    while i < lines.len()
        invariant
            i <= lines@.len(),
            all =~= lines@.map_values(|t: &str| t@),
            all =~= spec_lines(contents@),
            r@.map_values(|t: &str| t@) + matching_lines(
                all.subrange(i as int, all.len() as int),
                query@,
            ) =~= matching_lines(all, query@),
        decreases lines@.len() - i,
    {
        let ghost rest = all.subrange(i as int, all.len() as int);
        proof {
            assert(rest[0] == all[i as int]);
            assert(rest.drop_first() =~= all.subrange(i + 1, all.len() as int));
        }
        let line = lines[i];
        if str_contains(line, query) {
            let ghost r0 = r@;
            r.push(line);
            proof {
                assert(r@.map_values(|t: &str| t@) =~= r0.map_values(|t: &str| t@).push(line@));
            }
        }
        i = i + 1;
    }
    r
}

/// Case-insensitive search: the lines of `contents` whose case-folded text
/// contains the case-folded `query`, in order.
pub fn search_case_insensitive<'a>(query: &str, contents: &'a str) -> (r: Vec<&'a str>)
    ensures
        r@.map_values(|t: &str| t@) =~= ci_matching_lines(spec_lines(contents@), query@),
{
    let folded_query = lowercase(query);
    let lines = split_lines(contents);
    let ghost all = lines@.map_values(|t: &str| t@);
    let mut r: Vec<&'a str> = Vec::new();
    let mut i: usize = 0;
    proof {
        assert(all.subrange(0, all.len() as int) =~= all);
    }
    while i < lines.len()
        invariant
            i <= lines@.len(),
            all =~= lines@.map_values(|t: &str| t@),
            all =~= spec_lines(contents@),
            folded_query@ == lower_of(query@),
            r@.map_values(|t: &str| t@) + ci_matching_lines(
                all.subrange(i as int, all.len() as int),
                query@,
            ) =~= ci_matching_lines(all, query@),
        decreases lines@.len() - i,
    {
        let ghost rest = all.subrange(i as int, all.len() as int);
        proof {
            assert(rest[0] == all[i as int]);
            assert(rest.drop_first() =~= all.subrange(i + 1, all.len() as int));
        }
        let line = lines[i];
        let folded_line = lowercase(line);
        if str_contains(folded_line.as_str(), folded_query.as_str()) {
            let ghost r0 = r@;
            r.push(line);
            proof {
                assert(r@.map_values(|t: &str| t@) =~= r0.map_values(|t: &str| t@).push(line@));
            }
        }
        i = i + 1;
    }
    r
}

} // verus!
