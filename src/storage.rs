use vstd::prelude::*;
use vstd::string::*;
use crate::config::StorageConfig;

verus! {

/// Where one domain's certificate and key live, and the temporary names that
/// each is written under before it is renamed into place.
pub struct StoragePaths {
    pub dir: String,
    pub cert: String,
    pub key: String,
    pub cert_tmp: String,
    pub key_tmp: String,
}

pub open spec fn domain_dir_spec(base: Seq<char>, domain: Seq<char>) -> Seq<char> {
    base + "/"@ + domain
}

pub open spec fn file_spec(dir: Seq<char>, name: Seq<char>) -> Seq<char> {
    dir + "/"@ + name
}

pub open spec fn tmp_spec(path: Seq<char>) -> Seq<char> {
    path + ".tmp"@
}

fn join(dir: &str, name: &str) -> (r: String)
    ensures
        r@ == file_spec(dir@, name@),
{
    let mut r = String::from_str(dir);
    r.append("/");
    r.append(name);
    r
}

fn tmp_name(path: &str) -> (r: String)
    ensures
        r@ == tmp_spec(path@),
{
    let mut r = String::from_str(path);
    r.append(".tmp");
    r
}

/// The files of `domain` under `cfg`: `{base}/{domain}/{cert file}` and
/// `{base}/{domain}/{key file}`, each with a `.tmp` sibling in the same directory.
pub fn storage_paths(domain: &str, cfg: &StorageConfig) -> (r: StoragePaths)
    ensures
        r.dir@ == domain_dir_spec(cfg.certs_base_path@, domain@),
        r.cert@ == file_spec(r.dir@, cfg.cert_file_name@),
        r.key@ == file_spec(r.dir@, cfg.key_file_name@),
        r.cert_tmp@ == tmp_spec(r.cert@),
        r.key_tmp@ == tmp_spec(r.key@),
{
    let dir = join(cfg.certs_base_path.as_str(), domain);
    let cert = join(dir.as_str(), cfg.cert_file_name.as_str());
    let key = join(dir.as_str(), cfg.key_file_name.as_str());
    let cert_tmp = tmp_name(cert.as_str());
    let key_tmp = tmp_name(key.as_str());
    StoragePaths { dir, cert, key, cert_tmp, key_tmp }
}

/// A temporary file is written in the directory of the file it replaces and
/// under another name, so renaming it into place never crosses filesystems
/// and never overwrites the target before the new content is complete.
pub proof fn lemma_tmp_beside_target(dir: Seq<char>, name: Seq<char>)
    ensures
        tmp_spec(file_spec(dir, name)) == file_spec(dir, name + ".tmp"@),
        tmp_spec(file_spec(dir, name)) != file_spec(dir, name),
{
    reveal_strlit(".tmp");
    assert(tmp_spec(file_spec(dir, name)) =~= file_spec(dir, name + ".tmp"@));
    assert(tmp_spec(file_spec(dir, name)).len() == file_spec(dir, name).len() + 4);
}

} // verus!
