//! Where the vault keeps its files: `~/.porquinho/{config.json,salt,check}`.
use vstd::prelude::*;

verus! {

/// Appending a relative component to a path, as `PathBuf::join` does on Unix:
/// a `/` goes between them unless the base is empty or already ends in `/`.
pub open spec fn join_path(base: Seq<char>, component: Seq<char>) -> Seq<char> {
    if base.len() == 0 || base.last() == '/' {
        base + component
    } else {
        base + seq!['/'] + component
    }
}

/// Joining keeps the base and the component whole and in order, with at most
/// one `/` added between them: exactly when the base is not empty and does not
/// end in `/`.
pub proof fn lemma_join_path_parts(base: Seq<char>, component: Seq<char>)
    ensures
        ({
            let path = join_path(base, component);
            let sep: int = if base.len() > 0 && base.last() != '/' { 1 } else { 0 };
            &&& path.len() == base.len() + sep + component.len()
            &&& path.subrange(0, base.len() as int) == base
            &&& path.subrange(base.len() + sep, path.len() as int) == component
            &&& sep == 1 ==> path[base.len() as int] == '/'
        }),
{
    let path = join_path(base, component);
    let sep: int = if base.len() > 0 && base.last() != '/' { 1 } else { 0 };
    assert(path.subrange(0, base.len() as int) =~= base);
    assert(path.subrange(base.len() + sep, path.len() as int) =~= component);
}

/// The vault directory under the given home directory.
pub open spec fn spec_vault_dir(home: Seq<char>) -> Seq<char> {
    join_path(home, ".porquinho"@)
}

/// Appends the relative component `component` to `base`.
pub fn join(base: &str, component: &str) -> (path: String)
    ensures
        path@ == join_path(base@, component@),
{
    let len = base.unicode_len();
    let mut path = String::from_str(base);
    if len > 0 && base.get_char(len - 1) != '/' {
        path.append("/");
        proof {
            reveal_strlit("/");
        }
    }
    path.append(component);
    path
}

/// The vault directory, `.porquinho` under the home directory `home`.
pub fn porquinho_dir(home: &str) -> (dir: String)
    ensures
        dir@ == spec_vault_dir(home@),
{
    join(home, ".porquinho")
}

/// The encrypted entries file, `config.json` in the vault directory.
pub fn config_path(home: &str) -> (path: String)
    ensures
        path@ == join_path(spec_vault_dir(home@), "config.json"@),
{
    let dir = porquinho_dir(home);
    join(dir.as_str(), "config.json")
}

/// The salt file, `salt` in the vault directory.
pub fn salt_path(home: &str) -> (path: String)
    ensures
        path@ == join_path(spec_vault_dir(home@), "salt"@),
{
    let dir = porquinho_dir(home);
    join(dir.as_str(), "salt")
}

/// The master-key check file, `check` in the vault directory.
pub fn check_path(home: &str) -> (path: String)
    ensures
        path@ == join_path(spec_vault_dir(home@), "check"@),
{
    let dir = porquinho_dir(home);
    join(dir.as_str(), "check")
}

} // verus!
