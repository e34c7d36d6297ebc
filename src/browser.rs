use vstd::prelude::*;

verus! {

/// The places where an installed Chrome or Chromium is looked for, in the
/// order in which they are tried.
pub open spec fn candidate_paths() -> Seq<&'static str> {
    seq!["/usr/bin/google-chrome", "/usr/bin/chromium", "/usr/bin/chromium-browser"]
}

/// The command-line flags that the browser is launched with, for stability
/// in headless and container environments.
pub open spec fn launch_flag_list() -> Seq<&'static str> {
    seq![
        "--no-sandbox",
        "--disable-setuid-sandbox",
        "--disable-gpu",
        "--disable-dev-shm-usage",
        "--disable-web-security",
        "--allow-running-insecure-content",
        "--disable-popup-blocking",
    ]
}

/// For each supported Linux distribution, its name and the command that
/// installs a browser there.
pub open spec fn install_commands() -> Seq<(&'static str, &'static str)> {
    seq![
        ("Debian/Ubuntu", "sudo apt-get install chromium-browser"),
        ("Fedora", "sudo dnf install chromium"),
        ("Arch Linux", "sudo pacman -S chromium"),
    ]
}

/// Whether the `i`-th candidate is reported present.
pub open spec fn present_at(present: Seq<bool>, i: int) -> bool {
    0 <= i < present.len() && i < candidate_paths().len() && present[i]
}

/// The paths where a browser is looked for, in order.
pub fn browser_candidates() -> (r: Vec<&'static str>)
    ensures
        r@ == candidate_paths(),
{
    let mut r: Vec<&'static str> = Vec::new();
    r.push("/usr/bin/google-chrome");
    r.push("/usr/bin/chromium");
    r.push("/usr/bin/chromium-browser");
    assert(r@ =~= candidate_paths());
    r
}

/// The flags that the browser is launched with.
pub fn launch_flags() -> (r: Vec<&'static str>)
    ensures
        r@ == launch_flag_list(),
{
    let mut r: Vec<&'static str> = Vec::new();
    r.push("--no-sandbox");
    r.push("--disable-setuid-sandbox");
    r.push("--disable-gpu");
    r.push("--disable-dev-shm-usage");
    r.push("--disable-web-security");
    r.push("--allow-running-insecure-content");
    r.push("--disable-popup-blocking");
    assert(r@ =~= launch_flag_list());
    r
}

/// The remediation hints printed when no browser is found: a distribution and
/// the command that installs a browser on it.
pub fn install_hints() -> (r: Vec<(&'static str, &'static str)>)
    ensures
        r@ == install_commands(),
{
    let mut r: Vec<(&'static str, &'static str)> = Vec::new();
    r.push(("Debian/Ubuntu", "sudo apt-get install chromium-browser"));
    r.push(("Fedora", "sudo dnf install chromium"));
    r.push(("Arch Linux", "sudo pacman -S chromium"));
    assert(r@ =~= install_commands());
    r
}

/// Given, for the candidate paths in order, whether a file exists there,
/// picks the first candidate that exists.  Entries beyond the candidates are
/// ignored; missing entries count as absent.
pub fn first_present(present: &Vec<bool>) -> (r: Option<usize>)
    ensures
        r is None <==> (forall|i: int| !present_at(present@, i)),
        r matches Some(i) ==> present_at(present@, i as int) && forall|j: int|
            0 <= j < i ==> !present_at(present@, j),
{
    let candidates = browser_candidates().len();
    let n: usize = if present.len() < candidates {
        present.len()
    } else {
        candidates
    };
    let mut i: usize = 0;
    while i < n
        invariant
            n <= present@.len(),
            n == present@.len() || n == candidate_paths().len(),
            n <= candidate_paths().len(),
            0 <= i <= n,
            forall|j: int| 0 <= j < i ==> !present_at(present@, j),
        decreases n - i,
    {
        if present[i] {
            assert(present_at(present@, i as int));
            return Some(i);
        }
        i = i + 1;
    }
    None
}

/// The path of the first candidate reported present, if any.
pub fn located_browser(present: &Vec<bool>) -> (r: Option<&'static str>)
    ensures
        r is None <==> (forall|i: int| !present_at(present@, i)),
        r matches Some(p) ==> exists|i: int|
            present_at(present@, i) && p == candidate_paths()[i] && forall|j: int|
                0 <= j < i ==> !present_at(present@, j),
{
    match first_present(present) {
        Some(i) => {
            let paths = browser_candidates();
            Some(paths[i])
        },
        None => None,
    }
}

} // verus!
