//! The archive safety classifier: decides from a package's entry paths
//! and its embedded resource-info documents whether the package is safe
//! for public online play.

use vstd::prelude::*;

use crate::archive::{zip_entry_bytes, zip_entry_names, zip_list_entries, zip_parses,
    zip_read_entry};
use crate::jsonmeta::{json_resources_nonempty, read_json_resources_nonempty};
use crate::text::{chars_contains_lit, chars_ends_with_lit, chars_eq_lit, chars_range,
    chars_starts_with_lit, find_char, lower_chars, rfind_char, spec_contains, spec_ends_with,
    spec_lower, spec_starts_with};

verus! {

/// The container segment of an entry path: everything before the first
/// `/`; the whole path when there is none.
pub open spec fn spec_container(p: Seq<char>) -> Seq<char> {
    match p.index_of_first('/') {
        Some(i) => p.take(i),
        None => p,
    }
}

/// What follows the container segment of an entry path: everything
/// after the first `/`; empty when there is none.
pub open spec fn spec_rest(p: Seq<char>) -> Seq<char> {
    match p.index_of_first('/') {
        Some(i) => p.skip(i + 1),
        None => Seq::empty(),
    }
}

/// The last segment of an entry path: everything after the last `/`;
/// the whole path when there is none.
pub open spec fn spec_last_segment(p: Seq<char>) -> Seq<char> {
    match p.index_of_last('/') {
        Some(i) => p.skip(i + 1),
        None => p,
    }
}

/// The extension of an entry path: the last segment's final
/// dot-suffix, the dot included; empty when the last segment has no
/// dot.
pub open spec fn spec_extension(p: Seq<char>) -> Seq<char> {
    let seg = spec_last_segment(p);
    match seg.index_of_last('.') {
        Some(i) => seg.skip(i),
        None => Seq::empty(),
    }
}

/// Whether a container name is sensitive: it starts with one of the
/// fixed resource keywords that online play depends on.
pub open spec fn spec_sensitive(container: Seq<char>) -> bool {
    ||| spec_starts_with(container, "gameresources"@)
    ||| spec_starts_with(container, "pvp"@)
    ||| spec_starts_with(container, "shell"@)
    ||| spec_starts_with(container, "warehouse"@)
}

/// Whether a case-folded entry path is exempt from classification:
/// directory entries, top-level files, hidden system files, containers
/// with an approved sound bank, and the `streamdb` container.
pub open spec fn spec_exempt(p: Seq<char>, snd: Seq<Seq<char>>) -> bool {
    ||| spec_ends_with(p, "/"@)
    ||| !p.contains('/')
    ||| spec_ends_with(p, "desktop.ini"@)
    ||| spec_ends_with(p, ".ds_store"@)
    ||| snd.contains(spec_container(p))
    ||| spec_container(p) == "streamdb"@
}

/// Whether a path under `generated/decls` touches only known-benign
/// assets: it contains one of the fixed allow-listed fragments.
pub open spec fn spec_allowlisted(rest: Seq<char>) -> bool {
    ||| spec_contains(rest, "/eternalmod/"@)
    ||| spec_contains(rest, ".tga"@)
    ||| spec_contains(rest, ".png"@)
    ||| spec_contains(rest, ".swf"@)
    ||| spec_contains(rest, ".bimage"@)
    ||| spec_contains(rest, "/advancedscreenviewshake/"@)
    ||| spec_contains(rest, "/audiolog/"@)
    ||| spec_contains(rest, "/audiologstory/"@)
    ||| spec_contains(rest, "/automap/"@)
    ||| spec_contains(rest, "/automapplayerprofile/"@)
    ||| spec_contains(rest, "/automapproperties/"@)
    ||| spec_contains(rest, "/automapsoundprofile/"@)
    ||| spec_contains(rest, "/env/"@)
    ||| spec_contains(rest, "/font/"@)
    ||| spec_contains(rest, "/fontfx/"@)
    ||| spec_contains(rest, "/fx/"@)
    ||| spec_contains(rest, "/gameitem/"@)
    ||| spec_contains(rest, "/globalfonttable/"@)
    ||| spec_contains(rest, "/gorebehavior/"@)
    ||| spec_contains(rest, "/gorecontainer/"@)
    ||| spec_contains(rest, "/gorewounds/"@)
    ||| spec_contains(rest, "/handsbobcycle/"@)
    ||| spec_contains(rest, "/highlightlos/"@)
    ||| spec_contains(rest, "/highlights/"@)
    ||| spec_contains(rest, "/hitconfirmationsoundsinfo/"@)
    ||| spec_contains(rest, "/hud/"@)
    ||| spec_contains(rest, "/hudelement/"@)
    ||| spec_contains(rest, "/lightrig/"@)
    ||| spec_contains(rest, "/lodgroup/"@)
    ||| spec_contains(rest, "/material2/"@)
    ||| spec_contains(rest, "/md6def/"@)
    ||| spec_contains(rest, "/modelasset/"@)
    ||| spec_contains(rest, "/particle/"@)
    ||| spec_contains(rest, "/particlestage/"@)
    ||| spec_contains(rest, "/renderlayerdefinition/"@)
    ||| spec_contains(rest, "/renderparm/"@)
    ||| spec_contains(rest, "/renderparmmeta/"@)
    ||| spec_contains(rest, "/renderprogflag/"@)
    ||| spec_contains(rest, "/ribbon2/"@)
    ||| spec_contains(rest, "/rumble/"@)
    ||| spec_contains(rest, "/soundevent/"@)
    ||| spec_contains(rest, "/soundpack/"@)
    ||| spec_contains(rest, "/soundrtpc/"@)
    ||| spec_contains(rest, "/soundstate/"@)
    ||| spec_contains(rest, "/soundswitch/"@)
    ||| spec_contains(rest, "/speaker/"@)
    ||| spec_contains(rest, "/staticimage/"@)
    ||| spec_contains(rest, "/swfresources/"@)
    ||| spec_contains(rest, "/uianchor/"@)
    ||| spec_contains(rest, "/uicolor/"@)
    ||| spec_contains(rest, "/weaponreticle/"@)
    ||| spec_contains(rest, "/weaponreticleswfinfo/"@)
    ||| spec_contains(rest, "/entitydef/light/"@)
    ||| spec_contains(rest, "/entitydef/fx"@)
    ||| spec_contains(rest, "/entitydef/"@)
    ||| spec_contains(rest, "/impacteffect/"@)
    ||| spec_contains(rest, "/uiweapon/"@)
    ||| spec_contains(rest, "/globalinitialwarehouse/"@)
    ||| spec_contains(rest, "/globalshell/"@)
    ||| spec_contains(rest, "/warehouseitem/"@)
    ||| spec_contains(rest, "/warehouseofflinecontainer/"@)
    ||| spec_contains(rest, "/tooltip/"@)
    ||| spec_contains(rest, "/livetile/"@)
    ||| spec_contains(rest, "/tutorialevent/"@)
    ||| spec_contains(rest, "/maps/game/dlc/"@)
    ||| spec_contains(rest, "/maps/game/dlc2/"@)
    ||| spec_contains(rest, "/maps/game/hub/"@)
    ||| spec_contains(rest, "/maps/game/shell/"@)
    ||| spec_contains(rest, "/maps/game/sp/"@)
    ||| spec_contains(rest, "/maps/game/tutorials/"@)
    ||| spec_contains(rest, "/decls/campaign"@)
}

/// Whether one case-folded entry path by itself makes the package
/// unsafe: a non-exempt entry of a sensitive container that either has
/// a `.lwo` extension or touches a declaration path with no
/// allow-listed fragment.
pub open spec fn spec_entry_blocks(p: Seq<char>, snd: Seq<Seq<char>>) -> bool {
    &&& !spec_exempt(p, snd)
    &&& spec_sensitive(spec_container(p))
    &&& {
        ||| spec_contains(spec_extension(p), ".lwo"@)
        ||| (spec_starts_with(spec_rest(p), "generated/decls"@)
            && !spec_allowlisted(spec_rest(p)))
    }
}

/// Whether a case-folded entry path is a resource-info document that
/// phase two of the classifier must inspect.
pub open spec fn spec_assets_entry(p: Seq<char>, snd: Seq<Seq<char>>) -> bool {
    &&& !spec_exempt(p, snd)
    &&& spec_starts_with(p, "eternalmod/assetsinfo"@)
    &&& spec_ends_with(p, ".json"@)
}

/// Whether the entry called `name` is a resource-info document that
/// makes the package unsafe: it parses to a document with a non-empty
/// `resources` array, and the resource container it is named for is
/// sensitive.
pub open spec fn spec_assets_blocks(bytes: Seq<u8>, name: Seq<char>, snd: Seq<Seq<char>>) -> bool {
    &&& spec_assets_entry(spec_lower(name), snd)
    &&& spec_sensitive(spec_last_segment(spec_lower(name)))
    &&& (zip_entry_bytes(bytes, name) matches Some(d) && json_resources_nonempty(d))
}

/// The classifier's verdict on archive bytes, given the set of
/// container names with an approved sound bank: `true` means safe for
/// online play. Bytes that do not parse as an archive count as unsafe;
/// the scanner never asks about those.
pub open spec fn spec_classify(bytes: Seq<u8>, snd: Seq<Seq<char>>) -> bool {
    &&& zip_parses(bytes)
    &&& (forall|i: int|
        0 <= i < zip_entry_names(bytes).len() ==> !spec_entry_blocks(
            spec_lower(#[trigger] zip_entry_names(bytes)[i]),
            snd,
        ))
    &&& (forall|i: int|
        0 <= i < zip_entry_names(bytes).len() ==> !spec_assets_blocks(
            bytes,
            #[trigger] zip_entry_names(bytes)[i],
            snd,
        ))
}

/// The offset of the first `/` of `p`, as `index_of_first` gives it.
fn find_slash(p: &Vec<char>) -> (r: Option<usize>)
    ensures
        match r {
            Some(i) => p@.index_of_first('/') == Some(i as int),
            None => p@.index_of_first('/') is None,
        },
{
    proof {
        p@.index_of_first_ensures('/');
    }
    find_char(p, '/')
}

/// The offset of the last `/` of `p`, as `index_of_last` gives it.
fn rfind_slash(p: &Vec<char>) -> (r: Option<usize>)
    ensures
        match r {
            Some(i) => p@.index_of_last('/') == Some(i as int),
            None => p@.index_of_last('/') is None,
        },
{
    proof {
        p@.index_of_last_ensures('/');
    }
    rfind_char(p, '/')
}

/// Whether `container` starts with one of the sensitive resource
/// keywords.
pub fn sensitive_container(container: &Vec<char>) -> (r: bool)
    ensures
        r == spec_sensitive(container@),
{
    if chars_starts_with_lit(container, "gameresources") {
        return true;
    }
    if chars_starts_with_lit(container, "pvp") {
        return true;
    }
    if chars_starts_with_lit(container, "shell") {
        return true;
    }
    if chars_starts_with_lit(container, "warehouse") {
        return true;
    }
    false
}

/// Whether the case-folded container name `container` is in the
/// approved sound-bank list.
fn snd_has(snd: &Vec<String>, container: &Vec<char>) -> (r: bool)
    ensures
        r == snd.deep_view().contains(container@),
{
    let n: usize = snd.len();
    let mut i: usize = 0;
    while i < n
        invariant
            n == snd@.len(),
            snd.deep_view().len() == n,
            i <= n,
            forall|j: int| 0 <= j < i ==> snd.deep_view()[j] != container@,
            forall|j: int| 0 <= j < n ==> snd.deep_view()[j] == snd@[j]@,
        decreases n - i,
    {
        if chars_eq_lit(container, snd[i].as_str()) {
            assert(snd.deep_view()[i as int] == container@);
            return true;
        }
        i = i + 1;
    }
    false
}

/// Whether `rest` contains one of the allow-listed fragments.
pub fn allowlisted(rest: &Vec<char>) -> (r: bool)
    ensures
        r == spec_allowlisted(rest@),
{
    if chars_contains_lit(rest, "/eternalmod/") { return true; }
    if chars_contains_lit(rest, ".tga") { return true; }
    if chars_contains_lit(rest, ".png") { return true; }
    if chars_contains_lit(rest, ".swf") { return true; }
    if chars_contains_lit(rest, ".bimage") { return true; }
    if chars_contains_lit(rest, "/advancedscreenviewshake/") { return true; }
    if chars_contains_lit(rest, "/audiolog/") { return true; }
    if chars_contains_lit(rest, "/audiologstory/") { return true; }
    if chars_contains_lit(rest, "/automap/") { return true; }
    if chars_contains_lit(rest, "/automapplayerprofile/") { return true; }
    if chars_contains_lit(rest, "/automapproperties/") { return true; }
    if chars_contains_lit(rest, "/automapsoundprofile/") { return true; }
    if chars_contains_lit(rest, "/env/") { return true; }
    if chars_contains_lit(rest, "/font/") { return true; }
    if chars_contains_lit(rest, "/fontfx/") { return true; }
    if chars_contains_lit(rest, "/fx/") { return true; }
    if chars_contains_lit(rest, "/gameitem/") { return true; }
    if chars_contains_lit(rest, "/globalfonttable/") { return true; }
    if chars_contains_lit(rest, "/gorebehavior/") { return true; }
    if chars_contains_lit(rest, "/gorecontainer/") { return true; }
    if chars_contains_lit(rest, "/gorewounds/") { return true; }
    if chars_contains_lit(rest, "/handsbobcycle/") { return true; }
    if chars_contains_lit(rest, "/highlightlos/") { return true; }
    if chars_contains_lit(rest, "/highlights/") { return true; }
    if chars_contains_lit(rest, "/hitconfirmationsoundsinfo/") { return true; }
    if chars_contains_lit(rest, "/hud/") { return true; }
    if chars_contains_lit(rest, "/hudelement/") { return true; }
    if chars_contains_lit(rest, "/lightrig/") { return true; }
    if chars_contains_lit(rest, "/lodgroup/") { return true; }
    if chars_contains_lit(rest, "/material2/") { return true; }
    if chars_contains_lit(rest, "/md6def/") { return true; }
    if chars_contains_lit(rest, "/modelasset/") { return true; }
    if chars_contains_lit(rest, "/particle/") { return true; }
    if chars_contains_lit(rest, "/particlestage/") { return true; }
    if chars_contains_lit(rest, "/renderlayerdefinition/") { return true; }
    if chars_contains_lit(rest, "/renderparm/") { return true; }
    if chars_contains_lit(rest, "/renderparmmeta/") { return true; }
    if chars_contains_lit(rest, "/renderprogflag/") { return true; }
    if chars_contains_lit(rest, "/ribbon2/") { return true; }
    if chars_contains_lit(rest, "/rumble/") { return true; }
    if chars_contains_lit(rest, "/soundevent/") { return true; }
    if chars_contains_lit(rest, "/soundpack/") { return true; }
    if chars_contains_lit(rest, "/soundrtpc/") { return true; }
    if chars_contains_lit(rest, "/soundstate/") { return true; }
    if chars_contains_lit(rest, "/soundswitch/") { return true; }
    if chars_contains_lit(rest, "/speaker/") { return true; }
    if chars_contains_lit(rest, "/staticimage/") { return true; }
    if chars_contains_lit(rest, "/swfresources/") { return true; }
    if chars_contains_lit(rest, "/uianchor/") { return true; }
    if chars_contains_lit(rest, "/uicolor/") { return true; }
    if chars_contains_lit(rest, "/weaponreticle/") { return true; }
    if chars_contains_lit(rest, "/weaponreticleswfinfo/") { return true; }
    if chars_contains_lit(rest, "/entitydef/light/") { return true; }
    if chars_contains_lit(rest, "/entitydef/fx") { return true; }
    if chars_contains_lit(rest, "/entitydef/") { return true; }
    if chars_contains_lit(rest, "/impacteffect/") { return true; }
    if chars_contains_lit(rest, "/uiweapon/") { return true; }
    if chars_contains_lit(rest, "/globalinitialwarehouse/") { return true; }
    if chars_contains_lit(rest, "/globalshell/") { return true; }
    if chars_contains_lit(rest, "/warehouseitem/") { return true; }
    if chars_contains_lit(rest, "/warehouseofflinecontainer/") { return true; }
    if chars_contains_lit(rest, "/tooltip/") { return true; }
    if chars_contains_lit(rest, "/livetile/") { return true; }
    if chars_contains_lit(rest, "/tutorialevent/") { return true; }
    if chars_contains_lit(rest, "/maps/game/dlc/") { return true; }
    if chars_contains_lit(rest, "/maps/game/dlc2/") { return true; }
    if chars_contains_lit(rest, "/maps/game/hub/") { return true; }
    if chars_contains_lit(rest, "/maps/game/shell/") { return true; }
    if chars_contains_lit(rest, "/maps/game/sp/") { return true; }
    if chars_contains_lit(rest, "/maps/game/tutorials/") { return true; }
    if chars_contains_lit(rest, "/decls/campaign") { return true; }
    false
}

/// Whether the case-folded path `p` is exempt from classification.
fn entry_exempt(p: &Vec<char>, snd: &Vec<String>) -> (r: bool)
    ensures
        r == spec_exempt(p@, snd.deep_view()),
{
    if chars_ends_with_lit(p, "/") {
        return true;
    }
    let slash: usize = match find_slash(p) {
        Some(i) => i,
        None => {
            proof {
                p@.index_of_first_ensures('/');
            }
            return true;
        },
    };
    proof {
        p@.index_of_first_ensures('/');
    }
    if chars_ends_with_lit(p, "desktop.ini") {
        return true;
    }
    if chars_ends_with_lit(p, ".ds_store") {
        return true;
    }
    let container = chars_range(p, 0, slash);
    assert(container@ =~= spec_container(p@));
    if snd_has(snd, &container) {
        return true;
    }
    if chars_eq_lit(&container, "streamdb") {
        return true;
    }
    assert(p@.contains('/'));
    false
}

/// Whether the case-folded path `p` by itself makes the package
/// unsafe.
fn entry_blocks(p: &Vec<char>, snd: &Vec<String>) -> (r: bool)
    ensures
        r == spec_entry_blocks(p@, snd.deep_view()),
{
    if entry_exempt(p, snd) {
        return false;
    }
    proof {
        p@.index_of_first_ensures('/');
        p@.index_of_last_ensures('/');
    }
    let slash: usize = match find_slash(p) {
        Some(i) => i,
        None => {
            return false;
        },
    };
    let container = chars_range(p, 0, slash);
    assert(container@ =~= spec_container(p@));
    if !sensitive_container(&container) {
        return false;
    }
    let n: usize = p.len();
    let seg_start: usize = match rfind_slash(p) {
        Some(i) => i + 1,
        None => 0,
    };
    let seg = chars_range(p, seg_start, n);
    assert(seg@ =~= spec_last_segment(p@));
    proof {
        seg@.index_of_last_ensures('.');
    }
    let ext: Vec<char> = match rfind_char(&seg, '.') {
        Some(d) => chars_range(&seg, d, seg.len()),
        None => Vec::new(),
    };
    assert(ext@ =~= spec_extension(p@));
    if chars_contains_lit(&ext, ".lwo") {
        return true;
    }
    let rest = chars_range(p, slash + 1, n);
    assert(rest@ =~= spec_rest(p@));
    if chars_starts_with_lit(&rest, "generated/decls") && !allowlisted(&rest) {
        return true;
    }
    false
}

/// The classifier: `true` exactly when `spec_classify` holds of the
/// archive bytes and the approved sound-bank list.
pub fn classify_archive(bytes: &Vec<u8>, snd_containers: &Vec<String>) -> (r: bool)
    ensures
        r == spec_classify(bytes@, snd_containers.deep_view()),
{
    let names: Vec<String> = match zip_list_entries(bytes) {
        Some(v) => v,
        None => {
            return false;
        },
    };
    let n: usize = names.len();
    let ghost snames: Seq<Seq<char>> = zip_entry_names(bytes@);
    assert(names.deep_view() == snames);
    assert(forall|j: int| 0 <= j < n ==> names@[j]@ == snames[j]) by {
        assert(forall|j: int| 0 <= j < n ==> names@[j]@ == names.deep_view()[j]);
    }
    let mut i: usize = 0;
    while i < n
        invariant
            n == names@.len(),
            snames.len() == n,
            zip_parses(bytes@),
            snames == zip_entry_names(bytes@),
            forall|j: int| 0 <= j < n ==> names@[j]@ == snames[j],
            forall|j: int| 0 <= j < i ==> !spec_entry_blocks(
                spec_lower(snames[j]),
                snd_containers.deep_view(),
            ),
        decreases n - i,
    {
        let p = lower_chars(names[i].as_str());
        if entry_blocks(&p, snd_containers) {
            assert(spec_entry_blocks(spec_lower(snames[i as int]), snd_containers.deep_view()));
            return false;
        }
        i = i + 1;
    }
    let mut i: usize = 0;
    while i < n
        invariant
            n == names@.len(),
            snames.len() == n,
            zip_parses(bytes@),
            snames == zip_entry_names(bytes@),
            forall|j: int| 0 <= j < n ==> names@[j]@ == snames[j],
            forall|j: int| 0 <= j < n ==> !spec_entry_blocks(
                spec_lower(snames[j]),
                snd_containers.deep_view(),
            ),
            forall|j: int| 0 <= j < i ==> !spec_assets_blocks(
                bytes@,
                snames[j],
                snd_containers.deep_view(),
            ),
        decreases n - i,
    {
        let p = lower_chars(names[i].as_str());
        if assets_entry_blocks(bytes, &names[i], &p, snd_containers) {
            assert(spec_assets_blocks(bytes@, snames[i as int], snd_containers.deep_view()));
            return false;
        }
        i = i + 1;
    }
    true
}

/// Phase two of the classifier for a single entry: whether `name` is a
/// resource-info document that makes the package unsafe. `p` is the
/// case-folded form of `name`.
fn assets_entry_blocks(bytes: &Vec<u8>, name: &String, p: &Vec<char>, snd: &Vec<String>) -> (r:
    bool)
    requires
        p@ == spec_lower(name@),
    ensures
        r == spec_assets_blocks(bytes@, name@, snd.deep_view()),
{
    if entry_exempt(p, snd) {
        return false;
    }
    if !chars_starts_with_lit(p, "eternalmod/assetsinfo") {
        return false;
    }
    if !chars_ends_with_lit(p, ".json") {
        return false;
    }
    proof {
        p@.index_of_last_ensures('/');
    }
    let n: usize = p.len();
    let seg_start: usize = match rfind_slash(p) {
        Some(i) => i + 1,
        None => 0,
    };
    let seg = chars_range(p, seg_start, n);
    assert(seg@ =~= spec_last_segment(p@));
    if !sensitive_container(&seg) {
        return false;
    }
    let data: Vec<u8> = match zip_read_entry(bytes, name.as_str()) {
        Some(d) => d,
        None => {
            return false;
        },
    };
    read_json_resources_nonempty(&data)
}

} // verus!
