use md5_hasher::cli::{invocation, usage, Invocation};

fn args(values: &[&str]) -> Vec<String> {
    values.iter().map(|v| String::from(*v)).collect()
}

#[test]
fn usage_line_names_the_program_and_its_arguments() {
    assert_eq!(usage(), "Usage: md5_hasher <file1> <file2> ...");
}

#[test]
fn no_arguments_asks_for_usage() {
    assert!(matches!(invocation(&args(&["md5_hasher"])), Invocation::Usage));
    assert!(matches!(invocation(&[]), Invocation::Usage));
}

#[test]
fn arguments_after_the_program_name_are_the_paths() {
    let given = args(&["md5_hasher", "a.txt", "dir/b.txt", "a.txt"]);
    match invocation(&given) {
        Invocation::Process(paths) => {
            assert_eq!(paths, &args(&["a.txt", "dir/b.txt", "a.txt"])[..]);
        }
        Invocation::Usage => panic!("paths were given"),
    }
}

#[test]
fn one_path_is_enough_to_process() {
    let given = args(&["md5_hasher", "only.txt"]);
    match invocation(&given) {
        Invocation::Process(paths) => assert_eq!(paths, &[String::from("only.txt")][..]),
        Invocation::Usage => panic!("a path was given"),
    }
}
