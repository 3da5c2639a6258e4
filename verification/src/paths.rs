//! Path and URL reasoning on raw bytes: recognizing remote sources, deriving
//! the local cache file name from a URL, and recognizing the one tagged
//! format by its extension, case-insensitively.
use vstd::prelude::*;

verus! {

/// ASCII codes this module compares against.
pub const B_SLASH: u8 = 47;
pub const B_DOT: u8 = 46;
pub const B_COLON: u8 = 58;
pub const B_UPPER_A: u8 = 65;
pub const B_UPPER_Z: u8 = 90;
pub const B_H: u8 = 104;
pub const B_M: u8 = 109;
pub const B_P: u8 = 112;
pub const B_S: u8 = 115;
pub const B_T: u8 = 116;
pub const B_THREE: u8 = 51;

/// ASCII lowercasing of one byte.
pub open spec fn lower_byte(b: u8) -> u8 {
    if B_UPPER_A <= b && b <= B_UPPER_Z {
        (b + 32) as u8
    } else {
        b
    }
}

/// The name starts with `http://` or `https://`.
pub open spec fn is_remote_spec(name: Seq<u8>) -> bool {
    ||| (name.len() >= 7 && name[0] == B_H && name[1] == B_T && name[2] == B_T && name[3]
        == B_P && name[4] == B_COLON && name[5] == B_SLASH && name[6] == B_SLASH)
    ||| (name.len() >= 8 && name[0] == B_H && name[1] == B_T && name[2] == B_T && name[3]
        == B_P && name[4] == B_S && name[5] == B_COLON && name[6] == B_SLASH && name[7] == B_SLASH)
}

/// The suffix after the last `/`, the whole name when there is none.
pub open spec fn basename_spec(name: Seq<u8>) -> Seq<u8>
    decreases name.len(),
{
    if name.len() == 0 {
        name
    } else if name[name.len() - 1] == B_SLASH {
        Seq::empty()
    } else {
        basename_spec(name.drop_last()).push(name[name.len() - 1])
    }
}

/// The name ends in `.mp3`, compared case-insensitively in ASCII.
pub open spec fn is_mp3_name_spec(name: Seq<u8>) -> bool {
    &&& name.len() >= 4
    &&& name[name.len() - 4] == B_DOT
    &&& lower_byte(name[name.len() - 3]) == B_M
    &&& lower_byte(name[name.len() - 2]) == B_P
    &&& lower_byte(name[name.len() - 1]) == B_THREE
}

/// Does this name refer to a remote source rather than a local file?
pub fn is_remote_url(name: &Vec<u8>) -> (r: bool)
    ensures
        r == is_remote_spec(name@),
{
    if name.len() >= 7 && name[0] == B_H && name[1] == B_T && name[2] == B_T && name[3] == B_P {
        if name[4] == B_COLON && name[5] == B_SLASH && name[6] == B_SLASH {
            true
        } else {
            name.len() >= 8 && name[4] == B_S && name[5] == B_COLON && name[6] == B_SLASH && name[7]
                == B_SLASH
        }
    } else {
        false
    }
}

/// The local cache file name for a URL: everything after its last `/`
/// (empty when the URL ends in a slash).
pub fn cache_file_name(url: &Vec<u8>) -> (r: Vec<u8>)
    ensures
        r@ == basename_spec(url@),
{
    let n = url.len();
    // Find one past the last slash, or 0 when there is none.
    let mut cut: usize = n;
    while cut > 0 && url[cut - 1] != B_SLASH
        invariant
            cut <= n,
            n == url@.len(),
            forall|k: int| cut <= k < n ==> url@[k] != B_SLASH,
        decreases cut,
    {
        cut = cut - 1;
    }
    proof {
        if cut > 0 {
            lemma_basename_after_slash(url@, cut - 1);
        } else {
            lemma_basename_no_slash(url@);
        }
    }
    let mut r: Vec<u8> = Vec::new();
    let mut i: usize = cut;
    while i < n
        invariant
            cut <= i <= n,
            n == url@.len(),
            r@ == url@.subrange(cut as int, i as int),
        decreases n - i,
    {
        let b = url[i];
        r.push(b);
        proof {
            assert(r@ =~= url@.subrange(cut as int, i + 1 as int));
        }
        i = i + 1;
    }
    proof {
        assert(r@ =~= url@.subrange(cut as int, n as int));
    }
    r
}

/// Is this the tagged format this player knows, judged by its extension?
pub fn is_mp3_name(name: &Vec<u8>) -> (r: bool)
    ensures
        r == is_mp3_name_spec(name@),
{
    let n = name.len();
    if n < 4 {
        return false;
    }
    name[n - 4] == B_DOT && lower_byte_exec(name[n - 3]) == B_M && lower_byte_exec(name[n - 2])
        == B_P && lower_byte_exec(name[n - 1]) == B_THREE
}

/// ASCII lowercasing of one byte.
fn lower_byte_exec(b: u8) -> (r: u8)
    ensures
        r == lower_byte(b),
{
    if B_UPPER_A <= b && b <= B_UPPER_Z {
        b + 32
    } else {
        b
    }
}

/// When position `p` holds the last slash, the basename is the suffix
/// behind it.
proof fn lemma_basename_after_slash(name: Seq<u8>, p: int)
    requires
        0 <= p < name.len(),
        name[p] == B_SLASH,
        forall|k: int| p < k < name.len() ==> name[k] != B_SLASH,
    ensures
        basename_spec(name) == name.subrange(p + 1, name.len() as int),
    decreases name.len(),
{
    if name.len() == p + 1 {
        assert(name[name.len() - 1] == B_SLASH);
        assert(basename_spec(name) =~= name.subrange(p + 1, name.len() as int));
    } else {
        assert(name[name.len() - 1] != B_SLASH);
        lemma_basename_after_slash(name.drop_last(), p);
        assert(basename_spec(name) =~= name.subrange(p + 1, name.len() as int));
    }
}

/// Without any slash, the basename is the whole name.
proof fn lemma_basename_no_slash(name: Seq<u8>)
    requires
        forall|k: int| 0 <= k < name.len() ==> name[k] != B_SLASH,
    ensures
        basename_spec(name) == name,
    decreases name.len(),
{
    if name.len() == 0 {
    } else {
        lemma_basename_no_slash(name.drop_last());
        assert(basename_spec(name) =~= name);
    }
}

} // verus!
