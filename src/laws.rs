//! Properties that hold across the provisioner's functions.
use vstd::prelude::*;
use crate::platform::{Architecture, Os, asset_name_spec, binary_path_spec};
use crate::provision::{is_stale, stale_spec};

verus! {

/// Each supported platform gets the asset
/// `ltex-ls-plus-<version>-<os>-<arch>.<ext>`, with `os` one of `linux`,
/// `macos`, `windows`, `arch` one of `aarch64`, `x64`, and `ext` `zip` on
/// Windows and `tar.gz` elsewhere.
pub proof fn asset_names_follow_template(version: Seq<char>)
    ensures
        asset_name_spec(version, Os::Linux, Architecture::Aarch64) == "ltex-ls-plus-"@ + version
            + "-linux-aarch64.tar.gz"@,
        asset_name_spec(version, Os::Linux, Architecture::X8664) == "ltex-ls-plus-"@ + version
            + "-linux-x64.tar.gz"@,
        asset_name_spec(version, Os::Mac, Architecture::Aarch64) == "ltex-ls-plus-"@ + version
            + "-macos-aarch64.tar.gz"@,
        asset_name_spec(version, Os::Mac, Architecture::X8664) == "ltex-ls-plus-"@ + version
            + "-macos-x64.tar.gz"@,
        asset_name_spec(version, Os::Windows, Architecture::Aarch64) == "ltex-ls-plus-"@ + version
            + "-windows-aarch64.zip"@,
        asset_name_spec(version, Os::Windows, Architecture::X8664) == "ltex-ls-plus-"@ + version
            + "-windows-x64.zip"@,
{
    reveal_strlit("ltex-ls-plus");
    reveal_strlit("-");
    reveal_strlit(".");
    reveal_strlit("linux");
    reveal_strlit("macos");
    reveal_strlit("windows");
    reveal_strlit("aarch64");
    reveal_strlit("x64");
    reveal_strlit("tar.gz");
    reveal_strlit("zip");
    reveal_strlit("ltex-ls-plus-");
    reveal_strlit("-linux-aarch64.tar.gz");
    reveal_strlit("-linux-x64.tar.gz");
    reveal_strlit("-macos-aarch64.tar.gz");
    reveal_strlit("-macos-x64.tar.gz");
    reveal_strlit("-windows-aarch64.zip");
    reveal_strlit("-windows-x64.zip");
    assert(asset_name_spec(version, Os::Linux, Architecture::Aarch64) =~= "ltex-ls-plus-"@
        + version + "-linux-aarch64.tar.gz"@);
    assert(asset_name_spec(version, Os::Linux, Architecture::X8664) =~= "ltex-ls-plus-"@ + version
        + "-linux-x64.tar.gz"@);
    assert(asset_name_spec(version, Os::Mac, Architecture::Aarch64) =~= "ltex-ls-plus-"@ + version
        + "-macos-aarch64.tar.gz"@);
    assert(asset_name_spec(version, Os::Mac, Architecture::X8664) =~= "ltex-ls-plus-"@ + version
        + "-macos-x64.tar.gz"@);
    assert(asset_name_spec(version, Os::Windows, Architecture::Aarch64) =~= "ltex-ls-plus-"@
        + version + "-windows-aarch64.zip"@);
    assert(asset_name_spec(version, Os::Windows, Architecture::X8664) =~= "ltex-ls-plus-"@
        + version + "-windows-x64.zip"@);
}

/// The executable lies under `ltex-ls-plus-<version>/bin/`, as a `.bat`
/// script on Windows.
pub proof fn binary_paths_follow_layout(version: Seq<char>, os: Os)
    ensures
        os != Os::Windows ==> binary_path_spec(version, os) == "ltex-ls-plus-"@ + version
            + "/bin/ltex-ls-plus"@,
        os == Os::Windows ==> binary_path_spec(version, os) == "ltex-ls-plus-"@ + version
            + "/bin/ltex-ls-plus.bat"@,
{
    reveal_strlit("ltex-ls-plus");
    reveal_strlit("-");
    reveal_strlit("/bin/");
    reveal_strlit(".bat");
    reveal_strlit("ltex-ls-plus-");
    reveal_strlit("/bin/ltex-ls-plus");
    reveal_strlit("/bin/ltex-ls-plus.bat");
    if os == Os::Windows {
        assert(binary_path_spec(version, os) =~= "ltex-ls-plus-"@ + version
            + "/bin/ltex-ls-plus.bat"@);
    } else {
        assert(binary_path_spec(version, os) =~= "ltex-ls-plus-"@ + version + "/bin/ltex-ls-plus"@);
    }
}

/// Cleaning up after an install removes every listed entry but the current
/// version directory, and never that one: what remains of the listing is the
/// current version directory alone.
pub proof fn only_current_version_remains(names: Seq<String>, keep: Seq<char>)
    ensures
        forall|n: String|
            names.contains(n) && !stale_spec(names, keep).contains(n) ==> n@ == keep,
        forall|n: String| #[trigger] stale_spec(names, keep).contains(n) ==> n@ != keep,
        forall|n: String| #[trigger] stale_spec(names, keep).contains(n) ==> names.contains(n),
{
    broadcast use vstd::seq_lib::group_filter_ensures;

    let pred = is_stale(keep);
    assert forall|n: String| names.contains(n) && !stale_spec(names, keep).contains(n) implies n@
        == keep by {
        let i = choose|i: int| 0 <= i < names.len() && names[i] == n;
        if n@ != keep {
            names.lemma_filter_contains(pred, i);
        }
    }
    assert forall|n: String| #[trigger] stale_spec(names, keep).contains(n) implies n@ != keep
        && names.contains(n) by {
        let f = names.filter(pred);
        let k = choose|k: int| 0 <= k < f.len() && f[k] == n;
        names.lemma_filter_pred(pred, k);
        names.lemma_filter_contains_rev(pred, n);
    }
}

} // verus!
