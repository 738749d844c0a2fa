//! The system-container backend's pure logic: parsing the colon-delimited
//! image specification `template:distribution:release:architecture` and
//! building the creation argv from it.  The native driver that consumes
//! these values lives outside the library.

use vstd::prelude::*;

use crate::provider::ProviderError;

verus! {

/// The tokens of `s` split on `':'`.  Splitting never yields an empty list:
/// the empty string splits into one empty token.
pub open spec fn split_colon(s: Seq<char>) -> Seq<Seq<char>>
    decreases s.len(),
{
    if s.len() == 0 {
        seq![Seq::<char>::empty()]
    } else if s.last() == ':' {
        split_colon(s.drop_last()).push(Seq::<char>::empty())
    } else {
        let r = split_colon(s.drop_last());
        r.update(r.len() - 1, r.last().push(s.last()))
    }
}

/// Splitting yields at least one token.
pub proof fn lemma_split_colon_nonempty(s: Seq<char>)
    ensures
        split_colon(s).len() >= 1,
    decreases s.len(),
{
    if s.len() > 0 {
        lemma_split_colon_nonempty(s.drop_last());
    }
}

/// A parsed image specification.
#[derive(Debug)]
pub struct ImageSpec {
    pub template: String,
    pub dist: String,
    pub release: String,
    pub arch: String,
}

/// Parses an image specification: the first token names the backend's
/// OS-bootstrap template, the next three the distribution, release and
/// architecture.  Fewer than four tokens is a malformed image; extra tokens
/// are ignored.
pub fn parse_image_spec(name: &str) -> (r: Result<ImageSpec, ProviderError>)
    ensures
        r is Ok <==> split_colon(name@).len() >= 4,
        r matches Ok(s) ==> {
            &&& s.template@ == split_colon(name@)[0]
            &&& s.dist@ == split_colon(name@)[1]
            &&& s.release@ == split_colon(name@)[2]
            &&& s.arch@ == split_colon(name@)[3]
        },
        r matches Err(e) ==> e == ProviderError::InvalidImage,
{
    let n = name.unicode_len();
    // Ranges of the completed tokens, in order; `start` begins the token
    // still being read.
    let mut bounds: Vec<(usize, usize)> = Vec::new();
    let mut start: usize = 0;
    let mut i: usize = 0;
    while i < n
        invariant
            n == name@.len(),
            0 <= i <= n,
            start <= i,
            bounds@.len() + 1 == split_colon(name@.take(i as int)).len(),
            forall|k: int|
                0 <= k < bounds@.len() ==> {
                    &&& (#[trigger] bounds@[k]).0 <= bounds@[k].1 <= i
                    &&& split_colon(name@.take(i as int))[k] == name@.subrange(
                        bounds@[k].0 as int,
                        bounds@[k].1 as int,
                    )
                },
            split_colon(name@.take(i as int)).last() == name@.subrange(start as int, i as int),
        decreases n - i,
    {
        let ghost prefix = name@.take(i as int);
        let c = name.get_char(i);
        proof {
            assert(name@.take(i + 1 as int).drop_last() =~= prefix);
            assert(name@.take(i + 1 as int).last() == c);
            lemma_split_colon_nonempty(prefix);
        }
        if c == ':' {
            bounds.push((start, i));
            start = i + 1;
            proof {
                let next = split_colon(name@.take(i + 1 as int));
                assert(next == split_colon(prefix).push(Seq::<char>::empty()));
                assert(next.last() =~= name@.subrange(i + 1 as int, i + 1 as int));
                assert forall|k: int| 0 <= k < bounds@.len() implies {
                    &&& (#[trigger] bounds@[k]).0 <= bounds@[k].1 <= i + 1
                    &&& next[k] == name@.subrange(bounds@[k].0 as int, bounds@[k].1 as int)
                } by {
                    if k < bounds@.len() - 1 {
                        assert(next[k] == split_colon(prefix)[k]);
                    } else {
                        assert(next[k] == split_colon(prefix).last());
                    }
                }
            }
        } else {
            proof {
                let before = split_colon(prefix);
                let next = split_colon(name@.take(i + 1 as int));
                assert(next == before.update(before.len() - 1, before.last().push(c)));
                assert(next.last() == before.last().push(c));
                assert(next.last() =~= name@.subrange(start as int, i + 1 as int));
                assert forall|k: int| 0 <= k < bounds@.len() implies #[trigger] next[k]
                    == before[k] by {}
            }
        }
        i += 1;
    }
    proof {
        assert(name@.take(n as int) =~= name@);
    }
    // The token still being read at the end is the last one, so the token
    // count is one more than the number of completed tokens.
    if bounds.len() < 3 {
        return Err(ProviderError::InvalidImage);
    }
    let (t0, e0) = (bounds[0].0, bounds[0].1);
    let (t1, e1) = (bounds[1].0, bounds[1].1);
    let (t2, e2) = (bounds[2].0, bounds[2].1);
    let template = name.substring_char(t0, e0).to_owned();
    let dist = name.substring_char(t1, e1).to_owned();
    let release = name.substring_char(t2, e2).to_owned();
    let arch = if bounds.len() >= 4 {
        let (t3, e3) = (bounds[3].0, bounds[3].1);
        name.substring_char(t3, e3).to_owned()
    } else {
        name.substring_char(start, n).to_owned()
    };
    proof {
        assert(split_colon(name@)[3] == if bounds@.len() >= 4 {
            name@.subrange(bounds@[3].0 as int, bounds@[3].1 as int)
        } else {
            name@.subrange(start as int, name@.len() as int)
        });
    }
    Ok(ImageSpec { template, dist, release, arch })
}

/// The creation argv the backend is handed:
/// `--dist <dist> --release <release> --arch <arch>`.
pub fn build_create_argv(spec: &ImageSpec) -> (r: Vec<String>)
    ensures
        r.deep_view() == seq!["--dist"@, spec.dist@, "--release"@, spec.release@, "--arch"@, spec.arch@],
{
    let mut argv: Vec<String> = Vec::new();
    argv.push(String::from_str("--dist"));
    argv.push(spec.dist.clone());
    argv.push(String::from_str("--release"));
    argv.push(spec.release.clone());
    argv.push(String::from_str("--arch"));
    argv.push(spec.arch.clone());
    proof {
        assert(argv.deep_view() =~= seq![
            "--dist"@,
            spec.dist@,
            "--release"@,
            spec.release@,
            "--arch"@,
            spec.arch@,
        ]);
    }
    argv
}

} // verus!
