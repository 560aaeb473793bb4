//! What the kernel command line says about graphics: a mode forced with
//! `supergfxd.mode=` and whether Nvidia modesetting is on.
use vstd::prelude::*;

use crate::error::GfxError;
use crate::pci_device::{mode_from_name, GfxMode};
use crate::text::{before_first, chars_vec, contains_chars, contains_seq, lemma_before_first_at, push_char, trim_white};

verus! {

/// The first space-separated token of `s` that contains `key`.
pub open spec fn first_token_with(s: Seq<char>, key: Seq<char>) -> Option<Seq<char>>
    decreases s.len(),
{
    let tok = before_first(s, ' ');
    if contains_seq(tok, key) {
        Some(tok)
    } else if tok.len() < s.len() {
        first_token_with(s.skip(tok.len() + 1 as int), key)
    } else {
        None
    }
}

/// `s` without every leading repetition of `prefix`.
pub open spec fn strip_all_prefix(s: Seq<char>, prefix: Seq<char>) -> Seq<char>
    decreases s.len(),
{
    if prefix.len() > 0 && prefix.len() <= s.len() && s.subrange(0, prefix.len() as int) == prefix {
        strip_all_prefix(s.skip(prefix.len() as int), prefix)
    } else {
        s
    }
}

/// The mode that the kernel command line forces, if it names one: the value
/// of the first token holding `supergfxd.mode=`, which must be a mode name.
pub open spec fn cmdline_mode(cmdline: Seq<char>) -> Result<Option<GfxMode>, GfxError> {
    match first_token_with(cmdline, "supergfxd.mode="@) {
        None => Ok(None),
        Some(tok) => match mode_from_name(trim_white(strip_all_prefix(tok, "supergfxd.mode="@))) {
            Ok(m) => Ok(Some(m)),
            Err(e) => Err(e),
        },
    }
}

/// Whether the kernel command line turns Nvidia modesetting on, if it says:
/// the value of the first token holding `nvidia-drm.modeset=` is `1`.
pub open spec fn cmdline_nvidia_modeset(cmdline: Seq<char>) -> Option<bool> {
    match first_token_with(cmdline, "nvidia-drm.modeset="@) {
        None => None,
        Some(tok) => Some(strip_all_prefix(tok, "nvidia-drm.modeset="@) == "1"@),
    }
}

/// The characters `v[from..to]`.
fn sub_chars(v: &Vec<char>, from: usize, to: usize) -> (r: Vec<char>)
    requires
        from <= to <= v.len(),
    ensures
        r@ == v@.subrange(from as int, to as int),
{
    let mut r: Vec<char> = Vec::new();
    let mut i: usize = from;
    while i < to
        invariant
            from <= i <= to <= v.len(),
            r@ == v@.subrange(from as int, i as int),
        decreases to - i,
    {
        r.push(v[i]);
        i = i + 1;
        assert(r@ =~= v@.subrange(from as int, i as int));
    }
    r
}

/// The string made of these characters.
fn string_of(v: &Vec<char>) -> (r: String)
    ensures
        r@ == v@,
{
    let mut r = String::new();
    let mut i: usize = 0;
    while i < v.len()
        invariant
            i <= v.len(),
            r@ == v@.subrange(0, i as int),
        decreases v.len() - i,
    {
        push_char(&mut r, v[i]);
        i = i + 1;
        assert(r@ =~= v@.subrange(0, i as int));
    }
    assert(v@.subrange(0, v@.len() as int) =~= v@);
    r
}

/// The first space-separated token of `v` that contains `key`.
fn first_token_containing(v: &Vec<char>, key: &Vec<char>) -> (r: Option<Vec<char>>)
    ensures
        match r {
            Some(t) => first_token_with(v@, key@) == Some(t@),
            None => first_token_with(v@, key@) is None,
        },
{
    let mut start: usize = 0;
    assert(v@.skip(0) =~= v@);
    loop
        invariant
            start <= v.len(),
            first_token_with(v@, key@) == first_token_with(v@.skip(start as int), key@),
        decreases v.len() - start,
    {
        let mut end: usize = start;
        while end < v.len() && v[end] != ' '
            invariant
                start <= end <= v.len(),
                forall|k: int| start <= k < end ==> v@[k] != ' ',
            decreases v.len() - end,
        {
            end = end + 1;
        }
        let ghost rest = v@.skip(start as int);
        proof {
            assert forall|k: int| 0 <= k < end - start implies rest[k] != ' ' by {
                assert(rest[k] == v@[start + k]);
            }
            if end < v.len() {
                assert(rest[end - start] == v@[end as int]);
            }
            lemma_before_first_at(rest, ' ', end - start);
            assert(rest.subrange(0, end - start) =~= v@.subrange(start as int, end as int));
        }
        let tok = sub_chars(v, start, end);
        if contains_chars(&tok, key) {
            return Some(tok);
        }
        if end == v.len() {
            return None;
        }
        proof {
            assert(rest.skip(end - start + 1) =~= v@.skip(end + 1));
        }
        start = end + 1;
    }
}

/// `v` without every leading repetition of `prefix`.
fn strip_all_prefix_exec(v: &Vec<char>, prefix: &Vec<char>) -> (r: Vec<char>)
    ensures
        r@ == strip_all_prefix(v@, prefix@),
{
    let mut start: usize = 0;
    assert(v@.skip(0) =~= v@);
    loop
        invariant
            start <= v.len(),
            strip_all_prefix(v@, prefix@) == strip_all_prefix(v@.skip(start as int), prefix@),
        decreases v.len() - start,
    {
        let ghost rest = v@.skip(start as int);
        if prefix.len() == 0 || prefix.len() > v.len() - start {
            let r = sub_chars(v, start, v.len());
            assert(r@ =~= rest);
            return r;
        }
        let mut j: usize = 0;
        let mut matches = true;
        while j < prefix.len()
            invariant
                start + prefix.len() <= v.len(),
                j <= prefix.len(),
                matches <==> forall|k: int| 0 <= k < j ==> v@[start + k] == prefix@[k],
            decreases prefix.len() - j,
        {
            if v[start + j] != prefix[j] {
                matches = false;
            }
            j = j + 1;
        }
        if !matches {
            proof {
                let k = choose|k: int| 0 <= k < prefix.len() && v@[start + k] != prefix@[k];
                assert(rest.subrange(0, prefix@.len() as int)[k] != prefix@[k]);
            }
            let r = sub_chars(v, start, v.len());
            assert(r@ =~= rest);
            return r;
        }
        proof {
            assert(rest.subrange(0, prefix@.len() as int) =~= prefix@);
            assert(rest.skip(prefix@.len() as int) =~= v@.skip(start + prefix.len()));
        }
        start = start + prefix.len();
    }
}

/// The mode forced on the kernel command line `cmdline` (what
/// `/proc/cmdline` holds), if any; an error when the value is no mode name.
pub fn get_kernel_cmdline_mode(cmdline: &str) -> (r: Result<Option<GfxMode>, GfxError>)
    ensures
        r == cmdline_mode(cmdline@),
{
    let v = chars_vec(cmdline);
    let key = chars_vec("supergfxd.mode=");
    match first_token_containing(&v, &key) {
        None => Ok(None),
        Some(tok) => {
            let value = string_of(&strip_all_prefix_exec(&tok, &key));
            match GfxMode::from_str(value.as_str()) {
                Ok(m) => Ok(Some(m)),
                Err(e) => Err(e),
            }
        },
    }
}

/// Whether the kernel command line `cmdline` turns Nvidia modesetting on,
/// when it says anything about it.
pub fn get_kernel_cmdline_nvidia_modeset(cmdline: &str) -> (r: Option<bool>)
    ensures
        r == cmdline_nvidia_modeset(cmdline@),
{
    let v = chars_vec(cmdline);
    let key = chars_vec("nvidia-drm.modeset=");
    match first_token_containing(&v, &key) {
        None => None,
        Some(tok) => {
            let value = strip_all_prefix_exec(&tok, &key);
            let one = chars_vec("1");
            Some(crate::text::seq_eq(&value, &one))
        },
    }
}

} // verus!
