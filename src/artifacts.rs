use vstd::prelude::*;

verus! {

/// `<base>.<kind>.<ext>`.
pub open spec fn artifact_name(base: Seq<char>, kind: Seq<char>, ext: Seq<char>) -> Seq<char> {
    base + "."@ + kind + "."@ + ext
}

fn name_of(base: &str, kind: &str, ext: &str) -> (r: String)
    ensures
        r@ == artifact_name(base@, kind@, ext@),
{
    let mut s = base.to_owned();
    s.append(".");
    s.append(kind);
    s.append(".");
    s.append(ext);
    s
}

/// The two files a completed session writes: the attestation's and the
/// secrets', both named after `base` and with extension `ext`.
pub fn artifact_paths(base: &str, ext: &str) -> (r: (String, String))
    ensures
        r.0@ == artifact_name(base@, "attestation"@, ext@),
        r.1@ == artifact_name(base@, "secrets"@, ext@),
{
    (name_of(base, "attestation", ext), name_of(base, "secrets", ext))
}

} // verus!
