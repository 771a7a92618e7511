//! Prompt-template bookkeeping: the path a template name resolves to
//! and the listing of template names among directory entries. Reading
//! the files themselves is the caller's I/O.

use vstd::prelude::*;
use vstd::string::StrSliceExecFns;
use vstd::string::StringExecFns;

verus! {

/// The file path a template name resolves to.
pub fn prompt_path(name: &str) -> (r: String)
    ensures
        r@ == "/prompts/"@ + name@ + ".txt"@,
{
    String::from_str("/prompts/").concat(name).concat(".txt")
}

/// Whether a file name is a template file: it ends with the template
/// extension.
pub open spec fn spec_is_txt(name: Seq<char>) -> bool {
    name.len() >= 4 && name.skip(name.len() - 4) == ".txt"@
}

/// The template name a template file name carries: the file name with
/// its extension removed.
pub open spec fn spec_stem(name: Seq<char>) -> Seq<char> {
    name.take(name.len() - 4)
}

/// The template names among a sequence of file names, in order: the
/// stem of every name that ends with the template extension.
pub open spec fn spec_template_names(names: Seq<String>) -> Seq<Seq<char>>
    decreases names.len(),
{
    if names.len() == 0 {
        Seq::empty()
    } else {
        let rest = spec_template_names(names.drop_last());
        if spec_is_txt(names.last()@) {
            rest.push(spec_stem(names.last()@))
        } else {
            rest
        }
    }
}

/// Whether this file name ends with the template extension.
fn is_txt_name(name: &String) -> (r: bool)
    ensures
        r == spec_is_txt(name@),
{
    let n = name.as_str().unicode_len();
    if n < 4 {
        return false;
    }
    let c0 = name.as_str().get_char(n - 4);
    let c1 = name.as_str().get_char(n - 3);
    let c2 = name.as_str().get_char(n - 2);
    let c3 = name.as_str().get_char(n - 1);
    let r = c0 == '.' && c1 == 't' && c2 == 'x' && c3 == 't';
    proof {
        reveal_strlit(".txt");
        let tail = name@.skip(name@.len() - 4);
        assert(tail.len() == 4);
        assert(tail[0] == name@[name@.len() - 4]);
        assert(tail[1] == name@[name@.len() - 3]);
        assert(tail[2] == name@[name@.len() - 2]);
        assert(tail[3] == name@[name@.len() - 1]);
        if r {
            assert(tail =~= ".txt"@);
        }
        if tail == ".txt"@ {
            assert(r);
        }
    }
    r
}

/// List the template names among directory entries: each entry that
/// ends with the template extension contributes its stem, in entry
/// order; every other entry is dropped.
pub fn template_names(entries: &Vec<String>) -> (r: Vec<String>)
    ensures
        r@.map_values(|s: String| s@) == spec_template_names(entries@),
{
    let mut out: Vec<String> = Vec::new();
    let n = entries.len();
    let mut i: usize = 0;
    while i < n
        invariant
            n == entries.len(),
            i <= n,
            out@.map_values(|s: String| s@) == spec_template_names(entries@.take(i as int)),
        decreases n - i,
    {
        let name = &entries[i];
        proof {
            assert(entries@.take(i + 1).drop_last() =~= entries@.take(i as int));
            assert(entries@.take(i + 1).last() == entries@[i as int]);
        }
        if is_txt_name(name) {
            let len = name.as_str().unicode_len();
            let stem = name.as_str().substring_char(0, len - 4);
            out.push(String::from_str(stem));
            proof {
                assert(out@.map_values(|s: String| s@) =~= spec_template_names(
                    entries@.take(i + 1),
                ));
            }
        } else {
            proof {
                assert(out@.map_values(|s: String| s@) =~= spec_template_names(
                    entries@.take(i + 1),
                ));
            }
        }
        i = i + 1;
    }
    proof {
        assert(entries@.take(n as int) =~= entries@);
    }
    out
}

} // verus!
