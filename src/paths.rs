use vstd::prelude::*;

verus! {

/// `name` appended to the directory `base`: a separator goes between them
/// unless `base` is empty or already ends with one (`/`, or `\` as Windows
/// writes it).
pub open spec fn path_join(base: Seq<char>, name: Seq<char>) -> Seq<char> {
    if base.len() == 0 {
        name
    } else if base.last() == '/' || base.last() == '\\' {
        base + name
    } else {
        base + seq!['/'] + name
    }
}

/// Name of the configuration folder under the home directory.
pub open spec fn config_folder() -> Seq<char> {
    seq!['.', 'c', 'o', 'n', 'f', 'i', 'g']
}

/// Name of the application's own folder inside a configuration root.
pub open spec fn app_folder() -> Seq<char> {
    seq!['o', 'p', 'e', 'n', 'w', 'o', 'r', 'k']
}

/// The status directory for a user whose home directory is `home`.
pub open spec fn home_info_dir(home: Seq<char>) -> Seq<char> {
    path_join(path_join(home, config_folder()), app_folder())
}

/// The status directory under a per-user application-data root.
pub open spec fn appdata_info_dir(appdata: Seq<char>) -> Seq<char> {
    path_join(appdata, app_folder())
}

/// Relies on `str::ends_with` with a `char` pattern: true exactly when the
/// last character of `s` is `c`.
#[verifier::external_body]
fn ends_with_char(s: &str, c: char) -> (r: bool)
    ensures
        r == (s@.len() > 0 && s@.last() == c),
{
    s.ends_with(c)
}

/// Relies on `dirs::home_dir`: the current user's home directory, read from
/// the environment or the system's user database, if either gives one. A
/// path that is not valid UTF-8 is reported as no home directory. Nothing is
/// known of its value.
#[verifier::external_body]
fn home_dir() -> (r: Option<String>) {
    dirs::home_dir().and_then(|p| p.into_os_string().into_string().ok())
}

/// `name` appended to the directory `base`.
pub fn join_path(base: &str, name: &str) -> (r: String)
    ensures
        r@ == path_join(base@, name@),
{
    proof {
        reveal_strlit("/");
    }
    if base.is_empty() {
        name.to_owned()
    } else if ends_with_char(base, '/') || ends_with_char(base, '\\') {
        base.to_owned().concat(name)
    } else {
        base.to_owned().concat("/").concat(name)
    }
}

/// The status directory for a user whose home directory is `home`:
/// `<home>/.config/openwork`.
pub fn info_dir_under_home(home: &str) -> (r: String)
    ensures
        r@ == home_info_dir(home@),
{
    proof {
        reveal_strlit(".config");
        reveal_strlit("openwork");
    }
    let config = join_path(home, ".config");
    join_path(config.as_str(), "openwork")
}

/// The status directory under a per-user application-data root:
/// `<appdata>/openwork`.
pub fn info_dir_under_appdata(appdata: &str) -> (r: String)
    ensures
        r@ == appdata_info_dir(appdata@),
{
    proof {
        reveal_strlit("openwork");
    }
    join_path(appdata, "openwork")
}

/// The status directory for the result of a home directory lookup: `None`
/// exactly when no home directory was found.
pub fn info_dir_from_home(home: Option<String>) -> (r: Option<String>)
    ensures
        home is None <==> r is None,
        home matches Some(h) ==> r matches Some(d) && d@ == home_info_dir(h@),
{
    match home {
        Some(h) => Some(info_dir_under_home(h.as_str())),
        None => None,
    }
}

/// The status directory of the current user, derived from the home
/// directory (`<home>/.config/openwork`); `None` when no home directory can be
/// found, which means that mirroring is unavailable.
pub fn get_engine_info_file_path() -> (r: Option<String>)
    ensures
        r matches Some(d) ==> exists|home: Seq<char>| d@ == home_info_dir(home),
{
    info_dir_from_home(home_dir())
}

} // verus!
