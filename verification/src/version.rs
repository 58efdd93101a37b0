//! Service metadata: parsing the deployment version line.
//!
//! The build pipeline leaves a single line of the shape
//! `image_name:tag,build_time,git_commit`; missing pieces read as
//! `unknown`, and a line with no comma is taken whole as the image name.

use vstd::prelude::*;
use vstd::string::StrSliceExecFns;
use vstd::string::StringExecFns;
use crate::models::VersionInfo;
use crate::text::{contains_char, spec_trim, str_contains_char, trimmed};

verus! {

/// The characters of `s` before its first comma (all of `s` when it has
/// none).
pub open spec fn before_comma(s: Seq<char>) -> Seq<char>
    decreases s.len(),
{
    if s.len() == 0 {
        Seq::empty()
    } else if s[0] == ',' {
        Seq::empty()
    } else {
        seq![s[0]] + before_comma(s.drop_first())
    }
}

/// The characters of `s` after its first comma (empty when it has none).
pub open spec fn after_comma(s: Seq<char>) -> Seq<char>
    decreases s.len(),
{
    if s.len() == 0 {
        Seq::empty()
    } else if s[0] == ',' {
        s.drop_first()
    } else {
        after_comma(s.drop_first())
    }
}

proof fn lemma_comma_none(s: Seq<char>)
    requires
        forall|i: int| 0 <= i < s.len() ==> #[trigger] s[i] != ',',
    ensures
        before_comma(s) == s,
    decreases s.len(),
{
    if s.len() > 0 {
        assert(forall|i: int|
            0 <= i < s.drop_first().len() ==> #[trigger] s.drop_first()[i] != ',');
        lemma_comma_none(s.drop_first());
        assert(before_comma(s) =~= s);
    }
}

proof fn lemma_comma_split(s: Seq<char>, k: int)
    requires
        0 <= k < s.len(),
        s[k] == ',',
        forall|j: int| 0 <= j < k ==> #[trigger] s[j] != ',',
    ensures
        before_comma(s) == s.subrange(0, k),
        after_comma(s) == s.subrange(k + 1, s.len() as int),
    decreases s.len(),
{
    if k == 0 {
        assert(before_comma(s) =~= s.subrange(0, 0));
        assert(s.drop_first() =~= s.subrange(1, s.len() as int));
    } else {
        assert(s[0] != ',');
        assert(s.drop_first()[k - 1] == s[k]);
        assert(forall|j: int| 0 <= j < k - 1 ==> #[trigger] s.drop_first()[j] != ',');
        lemma_comma_split(s.drop_first(), k - 1);
        assert(seq![s[0]] + s.drop_first().subrange(0, k - 1) =~= s.subrange(0, k));
        assert(s.drop_first().subrange(k, s.drop_first().len() as int) =~= s.subrange(
            k + 1,
            s.len() as int,
        ));
    }
}

fn first_comma(s: &str) -> (r: Option<usize>)
    ensures
        match r {
            Some(k) => 0 <= k < s@.len() && s@[k as int] == ',' && (forall|j: int|
                0 <= j < k ==> #[trigger] s@[j] != ','),
            None => forall|j: int| 0 <= j < s@.len() ==> #[trigger] s@[j] != ',',
        },
{
    let len = s.unicode_len();
    let mut i: usize = 0;
    while i < len
        invariant
            0 <= i <= len,
            len == s@.len(),
            forall|j: int| 0 <= j < i ==> #[trigger] s@[j] != ',',
        decreases len - i,
    {
        if s.get_char(i) == ',' {
            return Some(i);
        }
        i += 1;
    }
    None
}

/// Splits a trimmed version line into image name, build time and commit:
/// the first comma ends the image name, the second ends the build time,
/// and the commit keeps everything after it; a piece that is not there
/// reads `unknown`.
pub fn parse_version_line(content: &str) -> (r: (String, String, String))
    ensures
        !contains_char(spec_trim(content@), ',') ==> {
            &&& r.0@ == spec_trim(content@)
            &&& r.1@ == "unknown"@
            &&& r.2@ == "unknown"@
        },
        contains_char(spec_trim(content@), ',') ==> {
            &&& r.0@ == before_comma(spec_trim(content@))
            &&& if contains_char(after_comma(spec_trim(content@)), ',') {
                r.1@ == before_comma(after_comma(spec_trim(content@))) && r.2@ == after_comma(
                    after_comma(spec_trim(content@)),
                )
            } else {
                r.1@ == after_comma(spec_trim(content@)) && r.2@ == "unknown"@
            }
        },
{
    let t = trimmed(content);
    let tlen = t.unicode_len();
    match first_comma(t) {
        None => {
            proof {
                lemma_comma_none(t@);
            }
            (t.to_owned(), String::from_str("unknown"), String::from_str("unknown"))
        },
        Some(k1) => {
            proof {
                lemma_comma_split(t@, k1 as int);
            }
            let image = t.substring_char(0, k1).to_owned();
            let rest = t.substring_char(k1 + 1, tlen);
            match first_comma(rest) {
                None => {
                    proof {
                        lemma_comma_none(rest@);
                    }
                    (image, rest.to_owned(), String::from_str("unknown"))
                },
                Some(k2) => {
                    proof {
                        lemma_comma_split(rest@, k2 as int);
                    }
                    let build = rest.substring_char(0, k2).to_owned();
                    let commit = rest.substring_char(k2 + 1, rest.unicode_len()).to_owned();
                    (image, build, commit)
                },
            }
        },
    }
}

/// Assembles the version description the metadata endpoint serves: the
/// fixed service name, the parsed version line (or `unknown` when the
/// version file could not be read), and the deployment environment (or
/// `unknown` when it is not set).
pub fn build_version_info(content: Option<String>, environment: Option<String>) -> (v: VersionInfo)
    ensures
        v.service@ == "foxy-fabrications-admin"@,
        content is None ==> v.image@ == "unknown"@ && v.build_time@ == "unknown"@ && v.git_commit@
            == "unknown"@,
        content matches Some(c) ==> (!contains_char(spec_trim(c@), ',') ==> {
            &&& v.image@ == spec_trim(c@)
            &&& v.build_time@ == "unknown"@
            &&& v.git_commit@ == "unknown"@
        }),
        content matches Some(c) ==> (contains_char(spec_trim(c@), ',') ==> {
            &&& v.image@ == before_comma(spec_trim(c@))
            &&& if contains_char(after_comma(spec_trim(c@)), ',') {
                v.build_time@ == before_comma(after_comma(spec_trim(c@))) && v.git_commit@
                    == after_comma(after_comma(spec_trim(c@)))
            } else {
                v.build_time@ == after_comma(spec_trim(c@)) && v.git_commit@ == "unknown"@
            }
        }),
        environment matches Some(env) ==> v.environment == env,
        environment is None ==> v.environment@ == "unknown"@,
{
    let (image, build_time, git_commit) = match content {
        Some(c) => parse_version_line(c.as_str()),
        None => {
            proof {
                reveal_strlit("unknown");
            }
            (
                String::from_str("unknown"),
                String::from_str("unknown"),
                String::from_str("unknown"),
            )
        },
    };
    let environment = match environment {
        Some(env) => env,
        None => String::from_str("unknown"),
    };
    VersionInfo {
        service: String::from_str("foxy-fabrications-admin"),
        image,
        build_time,
        git_commit,
        environment,
    }
}

} // verus!
