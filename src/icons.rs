use vstd::prelude::*;
use crate::text::same_text;

verus! {

/// `rel` joined onto `base` as a path: an absolute `rel` replaces `base`,
/// and a `/` separates the two unless `base` is empty or already ends in one.
pub open spec fn join_path(base: Seq<char>, rel: Seq<char>) -> Seq<char> {
    if rel.len() > 0 && rel[0] == '/' {
        rel
    } else if base.len() == 0 || base.last() == '/' {
        base + rel
    } else {
        base + "/"@ + rel
    }
}

/// `s` with every trailing `.app` removed.
pub open spec fn trim_app(s: Seq<char>) -> Seq<char>
    decreases s.len(),
{
    if s.len() >= 4 && s.subrange(s.len() - 4, s.len() as int) == ".app"@ {
        trim_app(s.subrange(0, s.len() - 4))
    } else {
        s
    }
}

/// What std::path::Path::file_name gives for a path: its last component,
/// if that is a name (not `..`, not a root).
pub uninterp spec fn file_name_of(path: Seq<char>) -> Option<Seq<char>>;

/// Relies on std::path::Path::file_name and OsStr::to_str; the name of a
/// path given as `&str` is always valid UTF-8, and depends on the path alone.
#[verifier::external_body]
fn path_file_name(path: &str) -> (r: Option<String>)
    ensures
        match r {
            Some(n) => file_name_of(path@) == Some(n@),
            None => file_name_of(path@) is None,
        },
{
    std::path::Path::new(path).file_name().and_then(|n| n.to_str()).map(|n| n.to_string())
}

/// Whether `s` ends with `suffix`.
fn has_suffix(s: &str, suffix: &str) -> (r: bool)
    ensures
        r == (s@.len() >= suffix@.len() && s@.subrange(s@.len() - suffix@.len(), s@.len() as int)
            == suffix@),
{
    let n = s.unicode_len();
    let k = suffix.unicode_len();
    if n < k {
        return false;
    }
    same_text(s.substring_char(n - k, n), suffix)
}

/// Joins `rel` onto `base` as a path.
pub fn join_path_exec(base: &str, rel: &str) -> (r: String)
    ensures
        r@ == join_path(base@, rel@),
{
    let rn = rel.unicode_len();
    if rn > 0 && rel.get_char(0) == '/' {
        return String::from_str(rel);
    }
    let bn = base.unicode_len();
    let mut out = String::from_str(base);
    if bn > 0 && base.get_char(bn - 1) != '/' {
        out.append("/");
    }
    out.append(rel);
    out
}

/// The application's display name: the file name of its bundle path with
/// any trailing `.app` removed.
pub fn clean_app_name(path: &str) -> (r: Option<String>)
    ensures
        match r {
            Some(n) => file_name_of(path@) matches Some(f) && n@ == trim_app(f),
            None => file_name_of(path@) is None,
        },
{
    let name = match path_file_name(path) {
        None => {
            return None;
        },
        Some(n) => n,
    };
    let mut cur: &str = name.as_str();
    proof {
        reveal_strlit(".app");
    }
    while has_suffix(cur, ".app")
        invariant
            trim_app(cur@) == trim_app(name@),
        decreases cur@.len(),
    {
        proof {
            reveal_strlit(".app");
        }
        let n = cur.unicode_len();
        cur = cur.substring_char(0, n - 4);
    }
    Some(String::from_str(cur))
}

pub open spec fn app_icon_rel() -> Seq<char> {
    "Contents/Resources/AppIcon.icns"@
}

pub open spec fn png_icon_rel() -> Seq<char> {
    "Contents/Resources/Icon.png"@
}

/// The generic application icon that the system provides.
pub open spec fn system_icon_path() -> Seq<char> {
    "/System/Library/CoreServices/CoreTypes.bundle/Contents/Resources/GenericApplicationIcon.icns"@
}

/// `path` when `present` reports it present, else nothing.
fn probe<E: Fn(&String) -> bool>(path: String, present: &E) -> (r: Option<String>)
    requires
        forall|p: &String| present.requires((p,)),
    ensures
        match r {
            Some(p) => p@ == path@ && present.ensures((&p,), true),
            None => present.ensures((&path,), false),
        },
{
    if present(&path) {
        Some(path)
    } else {
        None
    }
}

/// The icon a bundle keeps under its conventional name, if `present` reports
/// it present.
pub fn get_icns_from_app_bundle<E: Fn(&String) -> bool>(app_dir: &str, present: &E) -> (r: Option<
    String,
>)
    requires
        forall|p: &String| present.requires((p,)),
    ensures
        match r {
            Some(p) => p@ == join_path(app_dir@, app_icon_rel()) && present.ensures((&p,), true),
            None => exists|p: String|
                p@ == join_path(app_dir@, app_icon_rel()) && present.ensures((&p,), false),
        },
{
    probe(join_path_exec(app_dir, "Contents/Resources/AppIcon.icns"), present)
}

/// The PNG icon in a bundle's resources, if `present` reports it present.
pub fn get_png_from_resources<E: Fn(&String) -> bool>(app_dir: &str, present: &E) -> (r: Option<
    String,
>)
    requires
        forall|p: &String| present.requires((p,)),
    ensures
        match r {
            Some(p) => p@ == join_path(app_dir@, png_icon_rel()) && present.ensures((&p,), true),
            None => exists|p: String|
                p@ == join_path(app_dir@, png_icon_rel()) && present.ensures((&p,), false),
        },
{
    probe(join_path_exec(app_dir, "Contents/Resources/Icon.png"), present)
}

/// The system's generic application icon, if `present` reports it present;
/// the same for every bundle.
pub fn get_system_icon<E: Fn(&String) -> bool>(_app_dir: &str, present: &E) -> (r: Option<String>)
    requires
        forall|p: &String| present.requires((p,)),
    ensures
        match r {
            Some(p) => p@ == system_icon_path() && present.ensures((&p,), true),
            None => exists|p: String| p@ == system_icon_path() && present.ensures((&p,), false),
        },
{
    probe(
        String::from_str(
            "/System/Library/CoreServices/CoreTypes.bundle/Contents/Resources/GenericApplicationIcon.icns",
        ),
        present,
    )
}

/// A bundle resource named `name`.
pub open spec fn named_rel(name: Seq<char>) -> Seq<char> {
    "Contents/Resources/"@ + name
}

/// A bundle resource named `name` with the `.icns` extension added.
pub open spec fn named_icns_rel(name: Seq<char>) -> Seq<char> {
    "Contents/Resources/"@ + name + ".icns"@
}

/// The ICNS files the search may convert for a bundle: those its property
/// list names (as given, or with `.icns` added), its conventional icon, and
/// the system's generic icon.
pub open spec fn icns_candidate(app_dir: Seq<char>, names: Seq<String>, p: Seq<char>) -> bool {
    ||| exists|i: int|
        0 <= i < names.len() && (p == join_path(app_dir, named_rel(names[i]@)) || p == join_path(
            app_dir,
            named_icns_rel(names[i]@),
        ))
    ||| p == join_path(app_dir, app_icon_rel())
    ||| p == system_icon_path()
}

pub open spec fn names_of(o: Option<Vec<String>>) -> Seq<String> {
    match o {
        Some(v) => v@,
        None => seq![],
    }
}

/// `r` is what converting the candidate `s` gave.
pub open spec fn icon_source<C: Fn(&String) -> Option<String>, P: Fn(&String) -> Option<String>>(
    app_dir: Seq<char>,
    names: Seq<String>,
    convert_icns: &C,
    convert_png: &P,
    s: String,
    r: Option<String>,
) -> bool {
    ||| icns_candidate(app_dir, names, s@) && convert_icns.ensures((&s,), r)
    ||| s@ == join_path(app_dir, png_icon_rel()) && convert_png.ensures((&s,), r)
}

/// `p` gave no icon: `present` reported it absent, or `convert` failed on it.
pub open spec fn unavailable<E: Fn(&String) -> bool, C: Fn(&String) -> Option<String>>(
    present: &E,
    convert: &C,
    p: Seq<char>,
) -> bool {
    exists|s: String|
        s@ == p && (present.ensures((&s,), false) || convert.ensures((&s,), None::<String>))
}

/// `path`, converted by `convert` when `present` reports it present.
fn try_convert<E: Fn(&String) -> bool, C: Fn(&String) -> Option<String>>(
    path: String,
    present: &E,
    convert: &C,
) -> (r: Option<String>)
    requires
        forall|p: &String| present.requires((p,)),
        forall|p: &String| convert.requires((p,)),
    ensures
        r is Some ==> exists|s: String| s@ == path@ && convert.ensures((&s,), r),
        r is None ==> unavailable(present, convert, path@),
{
    if present(&path) {
        let out = convert(&path);
        assert(path@ == path@ && convert.ensures((&path,), out));
        out
    } else {
        assert(path@ == path@ && present.ensures((&path,), false));
        None
    }
}

/// Finds a bundle's icon and converts it to PNG, trying in turn: each icon
/// its property list names (`icon_names`; a name that is absent is tried
/// again with `.icns` added, unless it has that extension), the
/// conventional `AppIcon.icns`, the PNG in its resources, and the system's
/// generic icon. `present` says whether a file exists; `convert_icns` and
/// `convert_png` convert one and give the output's path.
pub fn extract_icon_from_app_bundle<
    E: Fn(&String) -> bool,
    C: Fn(&String) -> Option<String>,
    P: Fn(&String) -> Option<String>,
>(app_dir: &str, icon_names: Option<Vec<String>>, present: &E, convert_icns: &C, convert_png: &P) -> (r:
    Option<String>)
    requires
        forall|p: &String| present.requires((p,)),
        forall|p: &String| convert_icns.requires((p,)),
        forall|p: &String| convert_png.requires((p,)),
    ensures
        r is Some ==> exists|s: String|
            icon_source(app_dir@, names_of(icon_names), convert_icns, convert_png, s, r),
        r is None ==> {
            &&& icon_names matches Some(v) ==> forall|i: int|
                0 <= i < v@.len() ==> unavailable(
                    present,
                    convert_icns,
                    join_path(app_dir@, named_rel(#[trigger] v@[i]@)),
                )
            &&& unavailable(present, convert_icns, join_path(app_dir@, app_icon_rel()))
            &&& unavailable(present, convert_png, join_path(app_dir@, png_icon_rel()))
            &&& unavailable(present, convert_icns, system_icon_path())
        },
{
    let ghost names: Seq<String> = names_of(icon_names);
    if let Some(v) = &icon_names {
        let mut i: usize = 0;
        while i < v.len()
            invariant
                forall|p: &String| present.requires((p,)),
                forall|p: &String| convert_icns.requires((p,)),
                names == v@,
                names == names_of(icon_names),
                i <= v@.len(),
                forall|j: int|
                    0 <= j < i ==> unavailable(
                        present,
                        convert_icns,
                        join_path(app_dir@, named_rel(#[trigger] v@[j]@)),
                    ),
            decreases v@.len() - i,
        {
            let name = v[i].as_str();
            let mut rel = String::from_str("Contents/Resources/");
            rel.append(name);
            let path = join_path_exec(app_dir, rel.as_str());
            let found = present(&path);
            if found {
                let out = convert_icns(&path);
                if out.is_some() {
                    assert(icns_candidate(app_dir@, names, path@));
                    assert(icon_source(app_dir@, names, convert_icns, convert_png, path, out));
                    return out;
                }
                assert(path@ == path@ && convert_icns.ensures((&path,), None::<String>));
            } else {
                assert(path@ == path@ && present.ensures((&path,), false));
            }
            if !found && !has_suffix(name, ".icns") {
                let mut rel2 = String::from_str("Contents/Resources/");
                rel2.append(name);
                rel2.append(".icns");
                let alt_path = join_path_exec(app_dir, rel2.as_str());
                let ghost alt_view = alt_path@;
                let out = try_convert(alt_path, present, convert_icns);
                if out.is_some() {
                    let ghost s = choose|s: String| s@ == alt_view && convert_icns.ensures((&s,), out);
                    assert(icns_candidate(app_dir@, names, s@));
                    assert(icon_source(app_dir@, names, convert_icns, convert_png, s, out));
                    return out;
                }
            }
            i = i + 1;
        }
    }
    let p = join_path_exec(app_dir, "Contents/Resources/AppIcon.icns");
    let ghost pv = p@;
    let out = try_convert(p, present, convert_icns);
    if out.is_some() {
        let ghost s = choose|s: String| s@ == pv && convert_icns.ensures((&s,), out);
        assert(icon_source(app_dir@, names, convert_icns, convert_png, s, out));
        return out;
    }
    let p = join_path_exec(app_dir, "Contents/Resources/Icon.png");
    let ghost pv = p@;
    let out = try_convert(p, present, convert_png);
    if out.is_some() {
        let ghost s = choose|s: String| s@ == pv && convert_png.ensures((&s,), out);
        assert(icon_source(app_dir@, names, convert_icns, convert_png, s, out));
        return out;
    }
    let p = String::from_str(
        "/System/Library/CoreServices/CoreTypes.bundle/Contents/Resources/GenericApplicationIcon.icns",
    );
    let ghost pv = p@;
    let out = try_convert(p, present, convert_icns);
    if out.is_some() {
        let ghost s = choose|s: String| s@ == pv && convert_icns.ensures((&s,), out);
        assert(icon_source(app_dir@, names, convert_icns, convert_png, s, out));
    }
    out
}

/// The value held, as a sequence of zero or one items.
pub open spec fn some_of(o: Option<String>) -> Seq<String> {
    match o {
        Some(s) => seq![s],
        None => seq![],
    }
}

fn push_some(v: &mut Vec<String>, o: Option<String>)
    ensures
        final(v)@ == match o {
            Some(s) => old(v)@.push(s),
            None => old(v)@,
        },
{
    if let Some(s) = o {
        v.push(s);
    }
}

/// The icon names a bundle's property list gives, in the order
/// `CFBundleIconFile`, `CFBundleIconName`, `CFBundleTypeIconFile` (each the
/// entry's text, if it is there and is a string); none at all if it gives none.
pub fn get_icon_names_from_info_plist(
    icon_file: Option<String>,
    icon_name: Option<String>,
    type_icon_file: Option<String>,
) -> (r: Option<Vec<String>>)
    ensures
        ({
            let all = some_of(icon_file) + some_of(icon_name) + some_of(type_icon_file);
            match r {
                Some(v) => v@ == all && all.len() > 0,
                None => all.len() == 0,
            }
        }),
{
    let ghost all = some_of(icon_file) + some_of(icon_name) + some_of(type_icon_file);
    let mut icons: Vec<String> = Vec::new();
    push_some(&mut icons, icon_file);
    push_some(&mut icons, icon_name);
    push_some(&mut icons, type_icon_file);
    assert(icons@ =~= all);
    if icons.len() == 0 {
        None
    } else {
        Some(icons)
    }
}

/// Where the PNG icon of the bundle at `app_dir` is stored under the
/// application data folder: `<folder>/coco-appIcons/<bundle file name>.png`.
pub fn icon_output_path(app_dir: &str, app_data_folder: &str) -> (r: Option<String>)
    ensures
        match r {
            Some(p) => file_name_of(app_dir@) matches Some(n) && p@ == join_path(
                join_path(app_data_folder@, "coco-appIcons"@),
                n + ".png"@,
            ),
            None => file_name_of(app_dir@) is None,
        },
{
    let name = match path_file_name(app_dir) {
        None => {
            return None;
        },
        Some(n) => n,
    };
    let dir = join_path_exec(app_data_folder, "coco-appIcons");
    let mut file = name;
    file.append(".png");
    Some(join_path_exec(dir.as_str(), file.as_str()))
}

/// What str::to_lowercase gives for a text.
pub uninterp spec fn lower_of(s: Seq<char>) -> Seq<char>;

/// Relies on str::to_lowercase: the result depends on the text alone.
#[verifier::external_body]
fn lowercase(s: &str) -> (r: String)
    ensures
        r@ == lower_of(s@),
{
    s.to_lowercase()
}

pub open spec fn contains_text(hay: Seq<char>, needle: Seq<char>) -> bool {
    exists|i: int|
        0 <= i && i + needle.len() <= hay.len() && #[trigger] hay.subrange(i, i + needle.len())
            == needle
}

/// Whether `needle` occurs in `hay`.
pub fn has_text(hay: &str, needle: &str) -> (r: bool)
    ensures
        r == contains_text(hay@, needle@),
{
    let n = hay.unicode_len();
    let k = needle.unicode_len();
    if k > n {
        return false;
    }
    if k == 0 {
        assert(hay@.subrange(0int, 0int + needle@.len()) =~= needle@);
        return true;
    }
    let mut i: usize = 0;
    while i <= n - k
        invariant
            n == hay@.len(),
            k == needle@.len(),
            1 <= k <= n,
            i <= n - k + 1,
            forall|j: int| 0 <= j < i ==> #[trigger] hay@.subrange(j, j + k) != needle@,
        decreases n - k + 1 - i,
    {
        if same_text(hay.substring_char(i, i + k), needle) {
            assert(hay@.subrange(i as int, i + needle@.len()) == needle@);
            return true;
        }
        i = i + 1;
    }
    false
}

/// The word an application is indexed under, for the bundle at `path`
/// whose parent directory is `parent`: its file name without trailing
/// `.app`, lower-cased. No word for a bundle nested inside another bundle's
/// contents, for an empty word, or for the launcher itself (`coco-ai`).
pub fn app_search_word(path: &str, parent: &str) -> (r: Option<String>)
    ensures
        match r {
            Some(w) => !contains_text(parent@, ".app/Contents/"@) && (file_name_of(path@) matches Some(
                n,
            ) && w@ == lower_of(trim_app(n)) && w@.len() > 0 && w@ != "coco-ai"@),
            None => contains_text(parent@, ".app/Contents/"@) || file_name_of(path@) is None || (
            file_name_of(path@) matches Some(n) && (lower_of(trim_app(n)).len() == 0 || lower_of(
                trim_app(n),
            ) == "coco-ai"@)),
        },
{
    if has_text(parent, ".app/Contents/") {
        return None;
    }
    let name = match clean_app_name(path) {
        None => {
            return None;
        },
        Some(n) => n,
    };
    let word = lowercase(name.as_str());
    if word.unicode_len() == 0 || same_text(word.as_str(), "coco-ai") {
        None
    } else {
        Some(word)
    }
}

} // verus!
