//! Script helpers: which files of the scripts directory define a template
//! helper, and under which name.

use vstd::prelude::*;
use vstd::string::StringExecFns;
use vstd::string::StrSliceExecFns;
use crate::consts::FILE_EXT_RHAI;
use crate::registry::ends_with;
use crate::registry::text_ends_with;
use crate::text::texts;

verus! {

/// `parts` in a row, with `sep` between each two.
pub open spec fn join_all(parts: Seq<Seq<char>>, sep: Seq<char>) -> Seq<char>
    decreases parts.len(),
{
    if parts.len() == 0 {
        Seq::empty()
    } else if parts.len() == 1 {
        parts[0]
    } else {
        join_all(parts.drop_last(), sep) + sep + parts.last()
    }
}

/// Whether a file with the name `file` defines a helper: the name ends
/// with the script extension and does not begin with a dot.
pub open spec fn is_script(file: Seq<char>) -> bool {
    ends_with(file, FILE_EXT_RHAI@) && file[0] != '.'
}

/// The name of the helper that the file at `components`, the parts of its
/// path below the scripts directory, defines: the parts joined by slashes,
/// without the script extension. None where the file defines no helper.
pub open spec fn helper_name(components: Seq<Seq<char>>) -> Option<Seq<char>> {
    if components.len() > 0 && is_script(components.last()) {
        let full = join_all(components, seq!['/']);
        Some(full.subrange(0, full.len() - FILE_EXT_RHAI@.len()))
    } else {
        None
    }
}

/// The joined text ends with its last part.
pub proof fn lemma_join_all_ends(parts: Seq<Seq<char>>, sep: Seq<char>)
    requires
        parts.len() > 0,
    ensures
        join_all(parts, sep).len() >= parts.last().len(),
        join_all(parts, sep).subrange(
            join_all(parts, sep).len() - parts.last().len(),
            join_all(parts, sep).len() as int,
        ) == parts.last(),
{
    let full = join_all(parts, sep);
    if parts.len() == 1 {
        assert(full.subrange(0, full.len() as int) =~= full);
    } else {
        let head = join_all(parts.drop_last(), sep) + sep;
        assert(full == head + parts.last());
        assert(full.subrange(full.len() - parts.last().len(), full.len() as int) =~= parts.last());
    }
}

/// `parts` in a row, with `sep` between each two.
pub fn join_texts(parts: &Vec<String>, sep: &str) -> (r: String)
    ensures
        r@ == join_all(texts(parts@), sep@),
{
    let mut out = String::new();
    let mut i: usize = 0;
    let ghost all = texts(parts@);
    assert(all.subrange(0, 0) =~= Seq::<Seq<char>>::empty());
    while i < parts.len()
        invariant
            i <= parts@.len(),
            all == texts(parts@),
            out@ == join_all(all.subrange(0, i as int), sep@),
        decreases parts@.len() - i,
    {
        let ghost upto = all.subrange(0, i + 1);
        proof {
            assert(upto.drop_last() =~= all.subrange(0, i as int));
            assert(upto.last() == parts@[i as int]@);
        }
        if i > 0 {
            out.append(sep);
        }
        out.append(parts[i].as_str());
        proof {
            if i == 0 {
                assert(out@ =~= parts@[0]@);
            }
        }
        i = i + 1;
    }
    assert(all.subrange(0, all.len() as int) =~= all);
    out
}

/// The name of the helper that the file at `components`, the parts of its
/// path below the scripts directory, defines.
pub fn script_helper_name(components: &Vec<String>) -> (r: Option<String>)
    ensures
        crate::text::opt_text(r) == helper_name(texts(components@)),
{
    if components.len() == 0 {
        return None;
    }
    let last = components[components.len() - 1].as_str();
    assert(texts(components@).last() == last@);
    if !text_ends_with(last, FILE_EXT_RHAI) {
        return None;
    }
    proof {
        reveal_strlit(".rhai");
    }
    if last.get_char(0) == '.' {
        return None;
    }
    let full = join_texts(components, "/");
    proof {
        reveal_strlit("/");
        assert("/"@ =~= seq!['/']);
        lemma_join_all_ends(texts(components@), seq!['/']);
    }
    let n = full.as_str().unicode_len();
    let m = FILE_EXT_RHAI.unicode_len();
    Some(full.as_str().substring_char(0, n - m).to_owned())
}

} // verus!
