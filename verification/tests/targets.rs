use mrmm::target::{validate_repos, RepositoryTarget};

fn entries(items: &[&str]) -> Vec<String> {
    items.iter().map(|s| s.to_string()).collect()
}

#[test]
fn parse_splits_a_pair() {
    let target = RepositoryTarget::parse("rabbitmq/rabbitmq-server").unwrap();
    assert_eq!(target.organization(), "rabbitmq");
    assert_eq!(target.name(), "rabbitmq-server");
    assert_eq!(target.full_name(), "rabbitmq/rabbitmq-server");
}

#[test]
fn parse_refuses_what_is_not_a_pair() {
    assert!(RepositoryTarget::parse("").is_none());
    assert!(RepositoryTarget::parse("rabbitmq").is_none());
    assert!(RepositoryTarget::parse("/").is_none());
    assert!(RepositoryTarget::parse("/server").is_none());
    assert!(RepositoryTarget::parse("rabbitmq/").is_none());
    assert!(RepositoryTarget::parse("a/b/c").is_none());
    assert!(RepositoryTarget::parse("a//b").is_none());
}

#[test]
fn validate_returns_the_list_in_order() {
    let list = entries(&["org1/repoA", "org2/repoB", "org1/repoC"]);
    let targets = validate_repos(&list).ok().unwrap();
    let names: Vec<String> = targets.iter().map(|t| t.full_name()).collect();
    assert_eq!(names, list);
    assert_eq!(targets[1].organization(), "org2");
    assert_eq!(targets[1].name(), "repoB");
}

#[test]
fn validate_refuses_the_whole_list() {
    let list = entries(&["org1/repoA", "no-slash", "org2/repoB", "a/b/c"]);
    let error = validate_repos(&list).err().unwrap();
    assert_eq!(error.index, 1);
    assert_eq!(error.entry, "no-slash");
    assert_eq!(
        error.message(),
        "Aborting. Some repositories are not in the org/repo format, e.g. no-slash"
    );
}

#[test]
fn validate_accepts_an_empty_list() {
    assert_eq!(validate_repos(&Vec::new()), Ok(Vec::new()));
}

#[test]
fn validate_names_the_first_offending_entry() {
    let list = entries(&["a/b/c", "", "org/repo"]);
    let error = validate_repos(&list).err().unwrap();
    assert_eq!(error.index, 0);
    assert_eq!(error.entry, "a/b/c");
    let list = entries(&["org/repo", "org/", "/repo"]);
    let error = validate_repos(&list).err().unwrap();
    assert_eq!(error.index, 1);
    assert_eq!(error.entry, "org/");
}

#[test]
fn parse_counts_characters_not_bytes() {
    let target = RepositoryTarget::parse("größe/übung").unwrap();
    assert_eq!(target.organization(), "größe");
    assert_eq!(target.name(), "übung");
    assert_eq!(target.full_name(), "größe/übung");
    assert!(RepositoryTarget::parse("é/").is_none());
    assert!(RepositoryTarget::parse("/é").is_none());
}

#[test]
fn full_name_is_read_back_by_parse() {
    for entry in ["org1/repoA", "a/b", "rabbitmq/rabbitmq-server"] {
        let target = RepositoryTarget::parse(entry).unwrap();
        assert_eq!(RepositoryTarget::parse(&target.full_name()), Some(target.clone()));
        assert_eq!(target.full_name(), entry);
    }
}
