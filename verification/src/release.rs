//! Reading a release document and choosing its installer asset.
//!
//! The unverified shell fetches the latest-release endpoint and hands the
//! body here as bytes. This module parses the body through serde_json,
//! keeps the few fields the updater reads, and applies the selection
//! rule: the first asset whose name ends in `.exe` or holds `setup` or
//! `installer` is the one to download.

use vstd::prelude::*;
use crate::errors::UpdateError;
use crate::text::to_chars;
use crate::text::ends_with;
use crate::text::has_substring;
use crate::text::chars_end_with;
use crate::text::chars_contain;

verus! {

// ---------------------------------------------------------------------------
// Trusted view of serde_json.
// ---------------------------------------------------------------------------

/// serde_json's JSON document type, opaque to this library.
#[verifier::external_type_specification]
#[verifier::external_body]
pub struct ExJsonValue(serde_json::Value);

/// Relies on serde_json::from_slice: parses a byte buffer as one JSON
/// document; nothing is assumed of the parse's outcome.
#[verifier::external_body]
fn parse_json(bytes: &[u8]) -> Option<serde_json::Value> {
    serde_json::from_slice::<serde_json::Value>(bytes).ok()
}

/// Relies on serde_json::Value::get: looks a key up in a JSON object;
/// yields nothing where the document is no object or lacks the key.
#[verifier::external_body]
fn json_get<'a>(v: &'a serde_json::Value, key: &str) -> Option<&'a serde_json::Value> {
    v.get(key)
}

/// Relies on serde_json::Value::as_str: the string content of a JSON
/// string node, nothing for any other node.
pub assume_specification<'a>[ serde_json::Value::as_str ](v: &'a serde_json::Value) -> Option<
    &'a str,
>;

/// Relies on serde_json::Value::as_array: the elements of a JSON array
/// node, nothing for any other node.
pub assume_specification<'a>[ serde_json::Value::as_array ](v: &'a serde_json::Value) -> Option<
    &'a Vec<serde_json::Value>,
>;

// ---------------------------------------------------------------------------
// The fields the updater reads, as plain values.
// ---------------------------------------------------------------------------

/// One release asset: its file name and its direct download address, each
/// absent where the document lacks the field or it is no string.
#[derive(Debug, Clone, PartialEq, Eq)]
pub struct AssetDoc {
    pub name: Option<String>,
    pub download_url: Option<String>,
}

/// The release fields the updater reads: the tag name, the release page
/// address, and the asset list.
#[derive(Debug, Clone, PartialEq, Eq)]
pub struct ReleaseDoc {
    pub tag_name: Option<String>,
    pub html_url: Option<String>,
    pub assets: Option<Vec<AssetDoc>>,
}

/// Reads the fields the updater needs out of a parsed release document.
/// The document is opaque, so nothing is promised of the outcome; every
/// decision taken on it lives in the functions that take a `ReleaseDoc`.
pub fn release_doc_of(v: &serde_json::Value) -> ReleaseDoc {
    let tag_name = match json_get(v, "tag_name") {
        Some(t) => match t.as_str() {
            Some(s) => Some(s.to_owned()),
            None => None,
        },
        None => None,
    };
    let html_url = match json_get(v, "html_url") {
        Some(u) => match u.as_str() {
            Some(s) => Some(s.to_owned()),
            None => None,
        },
        None => None,
    };
    let assets = match json_get(v, "assets") {
        Some(a) => match a.as_array() {
            Some(arr) => {
                let mut list: Vec<AssetDoc> = Vec::new();
                let mut i: usize = 0;
                while i < arr.len()
                    invariant
                        i <= arr@.len(),
                    decreases arr@.len() - i,
                {
                    let name = match json_get(&arr[i], "name") {
                        Some(n) => match n.as_str() {
                            Some(s) => Some(s.to_owned()),
                            None => None,
                        },
                        None => None,
                    };
                    let download_url = match json_get(&arr[i], "browser_download_url") {
                        Some(u) => match u.as_str() {
                            Some(s) => Some(s.to_owned()),
                            None => None,
                        },
                        None => None,
                    };
                    list.push(AssetDoc { name, download_url });
                    i = i + 1;
                }
                Some(list)
            },
            None => None,
        },
        None => None,
    };
    ReleaseDoc { tag_name, html_url, assets }
}

/// Parses a latest-release body. Yields nothing where the bytes are no
/// JSON document.
pub fn parse_release_body(body: &[u8]) -> Option<ReleaseDoc> {
    match parse_json(body) {
        Some(v) => Some(release_doc_of(&v)),
        None => None,
    }
}

// ---------------------------------------------------------------------------
// The asset-selection rule.
// ---------------------------------------------------------------------------

/// The installer-name rule: the name ends in `.exe`, or holds `setup` or
/// `installer` (case-sensitive).
pub open spec fn name_matches(n: Seq<char>) -> bool {
    ends_with(n, ".exe"@) || has_substring(n, "setup"@) || has_substring(n, "installer"@)
}

/// The asset has a name and the name obeys the installer-name rule.
pub open spec fn asset_matches(a: AssetDoc) -> bool {
    a.name matches Some(n) && name_matches(n@)
}

/// Position `i` holds the first matching asset of the list.
pub open spec fn is_first_match(assets: Seq<AssetDoc>, i: int) -> bool {
    &&& 0 <= i < assets.len()
    &&& asset_matches(assets[i])
    &&& forall|j: int| 0 <= j < i ==> !asset_matches(assets[j])
}

/// No asset of the list obeys the installer-name rule.
pub open spec fn no_asset_matches(assets: Seq<AssetDoc>) -> bool {
    forall|j: int| 0 <= j < assets.len() ==> !asset_matches(assets[j])
}

/// Law: the selection is deterministic. A fixed ordered asset list has at
/// most one first matching position.
pub proof fn lemma_first_match_unique(assets: Seq<AssetDoc>, i: int, j: int)
    requires
        is_first_match(assets, i),
        is_first_match(assets, j),
    ensures
        i == j,
{
}

/// Decides the installer-name rule for one name.
pub fn name_matches_exec(n: &str) -> (b: bool)
    ensures
        b == name_matches(n@),
{
    let chars = to_chars(n);
    let exe = to_chars(".exe");
    let setup = to_chars("setup");
    let installer = to_chars("installer");
    chars_end_with(&chars, &exe) || chars_contain(&chars, &setup) || chars_contain(
        &chars,
        &installer,
    )
}

/// Picks the first asset of the list that obeys the installer-name rule.
pub fn select_asset(assets: &Vec<AssetDoc>) -> (r: Option<usize>)
    ensures
        r matches Some(i) ==> is_first_match(assets@, i as int),
        r is None ==> no_asset_matches(assets@),
{
    let mut i: usize = 0;
    while i < assets.len()
        invariant
            i <= assets@.len(),
            forall|j: int| 0 <= j < i ==> !asset_matches(assets@[j]),
        decreases assets@.len() - i,
    {
        let hit = match &assets[i].name {
            Some(n) => name_matches_exec(n.as_str()),
            None => false,
        };
        if hit {
            return Some(i);
        }
        i = i + 1;
    }
    None
}

// ---------------------------------------------------------------------------
// Tag trimming and the two extraction rules.
// ---------------------------------------------------------------------------

/// Length of the leading run of `'v'` characters of `s`.
pub open spec fn vees_len(s: Seq<char>) -> nat
    decreases s.len(),
{
    if s.len() > 0 && s[0] == 'v' {
        1 + vees_len(s.drop_first())
    } else {
        0
    }
}

/// The tag with its leading `'v'` markers removed.
pub open spec fn trim_v(s: Seq<char>) -> Seq<char> {
    s.subrange(vees_len(s) as int, s.len() as int)
}

proof fn lemma_vees_len(s: Seq<char>)
    ensures
        vees_len(s) <= s.len(),
        forall|k: int| 0 <= k < vees_len(s) ==> s[k] == 'v',
        vees_len(s) < s.len() ==> s[vees_len(s) as int] != 'v',
    decreases s.len(),
{
    if s.len() > 0 && s[0] == 'v' {
        lemma_vees_len(s.drop_first());
        assert forall|k: int| 0 <= k < vees_len(s) implies s[k] == 'v' by {
            if k > 0 {
                assert(s[k] == s.drop_first()[k - 1]);
            }
        }
        if vees_len(s) < s.len() {
            assert(s[vees_len(s) as int] == s.drop_first()[vees_len(s.drop_first()) as int]);
        }
    }
}

/// Removes the leading `'v'` markers of a release tag.
pub fn trim_tag(tag: &str) -> (r: String)
    ensures
        r@ == trim_v(tag@),
{
    proof {
        lemma_vees_len(tag@);
    }
    let len = tag.unicode_len();
    let mut z: usize = 0;
    while z < len && tag.get_char(z) == 'v'
        invariant
            z <= len,
            len == tag@.len(),
            forall|k: int| 0 <= k < z ==> tag@[k] == 'v',
        decreases len - z,
    {
        z = z + 1;
    }
    proof {
        assert(vees_len(tag@) == z);
    }
    tag.substring_char(z, len).to_owned()
}

/// The update source read from a release document by the installer rule:
/// the trimmed version tag and the download address of the first
/// matching asset. Each absence is refused with its own error:
/// no tag, no asset list, no matching asset, or a matching asset without
/// an address.
pub fn extract_update_source(doc: &ReleaseDoc) -> (r: Result<(String, String), UpdateError>)
    ensures
        doc.tag_name is None ==> r == Err::<(String, String), UpdateError>(
            UpdateError::MissingTagName,
        ),
        doc.tag_name is Some && doc.assets is None ==> r == Err::<(String, String), UpdateError>(
            UpdateError::MissingAssets,
        ),
        doc.tag_name is Some && doc.assets is Some && no_asset_matches(doc.assets->Some_0@) ==> r
            == Err::<(String, String), UpdateError>(UpdateError::NoInstallerAsset),
        doc.tag_name is Some && doc.assets is Some ==> (forall|i: int|
            #[trigger] is_first_match(doc.assets->Some_0@, i) ==> (match doc.assets->Some_0@[i].download_url {
                None => r == Err::<(String, String), UpdateError>(UpdateError::MissingDownloadUrl),
                Some(u) => r matches Ok(p) && p.0@ == trim_v(doc.tag_name->Some_0@) && p.1@ == u@,
            })),
{
    let tag = match &doc.tag_name {
        None => {
            return Err(UpdateError::MissingTagName);
        },
        Some(t) => t,
    };
    let assets = match &doc.assets {
        None => {
            return Err(UpdateError::MissingAssets);
        },
        Some(a) => a,
    };
    match select_asset(assets) {
        None => Err(UpdateError::NoInstallerAsset),
        Some(i) => {
            proof {
                assert forall|k: int| is_first_match(assets@, k) implies k == i as int by {
                    lemma_first_match_unique(assets@, k, i as int);
                }
            }
            match &assets[i].download_url {
                None => Err(UpdateError::MissingDownloadUrl),
                Some(u) => Ok((trim_tag(tag.as_str()), u.clone())),
            }
        },
    }
}

/// The release source read by the version-check rule: as above, but a
/// release without a matching asset falls back to its release page
/// address, and only a release lacking that too is refused.
pub fn extract_release_source(doc: &ReleaseDoc) -> (r: Result<(String, String), UpdateError>)
    ensures
        doc.tag_name is None ==> r == Err::<(String, String), UpdateError>(
            UpdateError::MissingTagNameInResponse,
        ),
        doc.tag_name is Some && doc.assets is None ==> r == Err::<(String, String), UpdateError>(
            UpdateError::MissingAssetsInResponse,
        ),
        doc.tag_name is Some && doc.assets is Some && no_asset_matches(doc.assets->Some_0@)
            ==> (match doc.html_url {
            Some(h) => r matches Ok(p) && p.0@ == trim_v(doc.tag_name->Some_0@) && p.1@ == h@,
            None => r == Err::<(String, String), UpdateError>(UpdateError::MissingReleaseUrl),
        }),
        doc.tag_name is Some && doc.assets is Some ==> (forall|i: int|
            #[trigger] is_first_match(doc.assets->Some_0@, i) ==> (match doc.assets->Some_0@[i].download_url {
                None => r == Err::<(String, String), UpdateError>(UpdateError::MissingDownloadUrl),
                Some(u) => r matches Ok(p) && p.0@ == trim_v(doc.tag_name->Some_0@) && p.1@ == u@,
            })),
{
    let tag = match &doc.tag_name {
        None => {
            return Err(UpdateError::MissingTagNameInResponse);
        },
        Some(t) => t,
    };
    let assets = match &doc.assets {
        None => {
            return Err(UpdateError::MissingAssetsInResponse);
        },
        Some(a) => a,
    };
    match select_asset(assets) {
        None => {
            match &doc.html_url {
                Some(h) => Ok((trim_tag(tag.as_str()), h.clone())),
                None => Err(UpdateError::MissingReleaseUrl),
            }
        },
        Some(i) => {
            proof {
                assert forall|k: int| is_first_match(assets@, k) implies k == i as int by {
                    lemma_first_match_unique(assets@, k, i as int);
                }
            }
            match &assets[i].download_url {
                None => Err(UpdateError::MissingDownloadUrl),
                Some(u) => Ok((trim_tag(tag.as_str()), u.clone())),
            }
        },
    }
}

} // verus!
