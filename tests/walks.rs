use syscalld::error::SyscallError;
use syscalld::walk::{split_path, Lookup, Walk, ELOOP, ENOENT, MAX_LINKS};

fn b(s: &str) -> Vec<u8> {
    s.as_bytes().to_vec()
}

/// Walks `path` against a table of links; names in `missing` do not exist.
fn walk(path: &str, base: &str, links: &[(&str, &str)], missing: &[&str]) -> Result<Vec<u8>, SyscallError> {
    let mut w = Walk::start(&b(path), &b(base));
    while let Some(name) = w.pending() {
        let mut here = w.resolved_path();
        if here != b("/") {
            here.push(b'/');
        }
        here.extend_from_slice(&name);
        let found = if let Some((_, t)) = links.iter().find(|(l, _)| b(l) == here) {
            Lookup::Link(b(t))
        } else if missing.iter().any(|m| b(m) == here) {
            Lookup::Missing
        } else {
            Lookup::Plain
        };
        w.advance(found)?;
    }
    Ok(w.resolved_path())
}

#[test]
fn split_keeps_dots_and_drops_empty() {
    assert_eq!(split_path(&b("//a/./b/../c/")), vec![b("a"), b("."), b("b"), b(".."), b("c")]);
    assert_eq!(split_path(&b("")), Vec::<Vec<u8>>::new());
}

#[test]
fn plain_path_resolves_to_itself() {
    assert_eq!(walk("/dev/null", "/", &[], &[]), Ok(b("/dev/null")));
}

#[test]
fn parent_is_clamped_at_the_root() {
    assert_eq!(walk("/../../etc/../dev/null", "/", &[], &[]), Ok(b("/dev/null")));
}

#[test]
fn absolute_link_target_restarts_at_the_root() {
    let links = [("/dev/evil", "/etc/shadow")];
    assert_eq!(walk("/dev/evil", "/", &links, &[]), Ok(b("/etc/shadow")));
    let links = [("/dev/up", "../../../../etc")];
    assert_eq!(walk("/dev/up/passwd", "/", &links, &[]), Ok(b("/etc/passwd")));
}

#[test]
fn relative_path_starts_at_the_base() {
    let links = [("/home/link", "sub")];
    assert_eq!(walk("link/x", "/home", &links, &[]), Ok(b("/home/sub/x")));
    assert_eq!(walk("../dev/null", "/home", &[], &[]), Ok(b("/dev/null")));
}

#[test]
fn missing_name_is_allowed_only_last() {
    assert_eq!(walk("/dev/newnode", "/", &[], &["/dev/newnode"]), Ok(b("/dev/newnode")));
    assert_eq!(walk("/nodir/x", "/", &[], &["/nodir"]), Err(SyscallError::Kernel(ENOENT)));
}

#[test]
fn link_loop_is_refused() {
    let links = [("/a", "/a")];
    assert_eq!(walk("/a", "/", &links, &[]), Err(SyscallError::Kernel(ELOOP)));
    assert_eq!(MAX_LINKS, 40);
}
