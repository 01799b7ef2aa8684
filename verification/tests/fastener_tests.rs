use fastener::Fastener;
use fastener::FastenerErr;
use fastener::Mode;

fn fastener(aur: bool, package: &str) -> Fastener {
    Fastener { aur, package: package.to_string() }
}

#[test]
fn formats_owner_repo_pair() {
    let f = fastener(false, "neovim/neovim");
    assert_eq!(f.fmt_git(), Ok("https://github.com/neovim/neovim".to_string()));
}

#[test]
fn formats_at_first_separator_only() {
    let f = fastener(false, "a/b/c");
    assert_eq!(f.fmt_git(), Ok("https://github.com/a/b/c".to_string()));
}

#[test]
fn formats_empty_components_as_is() {
    assert_eq!(fastener(false, "/repo").fmt_git(), Ok("https://github.com//repo".to_string()));
    assert_eq!(fastener(false, "owner/").fmt_git(), Ok("https://github.com/owner/".to_string()));
    assert_eq!(fastener(false, "/").fmt_git(), Ok("https://github.com//".to_string()));
}

#[test]
fn format_fails_without_separator() {
    assert_eq!(fastener(false, "yay-bin").fmt_git(), Err(FastenerErr::ParseErr));
    assert_eq!(fastener(true, "").fmt_git(), Err(FastenerErr::ParseErr));
}

#[test]
fn split_and_join_is_idempotent() {
    for s in ["a/b", "a/b/c", "neovim/neovim", "/", "x/", "/y"] {
        let (owner, repo) = s.split_once('/').unwrap();
        let joined = format!("{}/{}", owner, repo);
        assert_eq!(joined, s);
        let (owner2, repo2) = joined.split_once('/').unwrap();
        assert_eq!(format!("{}/{}", owner2, repo2), joined);
    }
}

#[test]
fn bare_name_without_aur_flag_is_rejected() {
    assert_eq!(fastener(false, "yay-bin").check(), Err(FastenerErr::NoSlash));
    assert_eq!(fastener(false, "firefox").check(), Err(FastenerErr::NoSlash));
    assert_eq!(fastener(false, "").check(), Err(FastenerErr::NoSlash));
}

#[test]
fn bare_name_with_aur_flag_selects_aur() {
    assert_eq!(fastener(true, "yay-bin").check(), Ok(Mode::AUR));
    assert_eq!(fastener(true, "firefox").check(), Ok(Mode::AUR));
    assert_eq!(fastener(true, "").check(), Ok(Mode::AUR));
}

#[test]
fn separator_selects_github_whatever_the_flag() {
    let expected = Mode::GITHUB("https://github.com/neovim/neovim".to_string());
    assert_eq!(fastener(false, "neovim/neovim").check(), Ok(expected));
    let expected = Mode::GITHUB("https://github.com/neovim/neovim".to_string());
    assert_eq!(fastener(true, "neovim/neovim").check(), Ok(expected));
}

#[test]
fn github_mode_invokes_git_clone() {
    let f = fastener(false, "neovim/neovim");
    let mode = f.check().unwrap();
    let inv = f.invocation(mode);
    assert_eq!(inv.program, "git");
    assert_eq!(inv.args, vec!["clone".to_string(), "https://github.com/neovim/neovim".to_string()]);
}

#[test]
fn aur_mode_invokes_helper_with_package_name() {
    let f = fastener(true, "yay-bin");
    let mode = f.check().unwrap();
    let inv = f.invocation(mode);
    assert_eq!(inv.program, "yay");
    assert_eq!(inv.args, vec!["-S".to_string(), "yay-bin".to_string()]);
}

#[test]
fn extra_separators_stay_in_the_repo_part() {
    let f = fastener(false, "a/b/c");
    let mode = f.check().unwrap();
    assert_eq!(mode, Mode::GITHUB("https://github.com/a/b/c".to_string()));
    let inv = f.invocation(mode);
    assert_eq!(inv.program, "git");
    assert_eq!(inv.args[1], "https://github.com/a/b/c");
}
