use bakery::context::Context;
use bakery::error::BError;
use indexmap::IndexMap;



#[test]
fn test_task_context_variables() {
    let variables: IndexMap<String, String> = IndexMap::from([
        ("VAR1".to_string(), "var1".to_string()),
        ("VAR2".to_string(), "var2".to_string()),
        ("VAR3".to_string(), "var3".to_string()),
        ("VAR4".to_string(), "$#[VAR1]".to_string()),
    ]);
    let ctx: Context = Context::new(&variables);
    assert_eq!(ctx.value("VAR1"), "var1");
    assert_eq!(ctx.value("VAR2"), "var2");
    assert_eq!(ctx.value("VAR3"), "var3");
    assert_eq!(ctx.value("VAR4"), "$#[VAR1]");
    assert!(ctx.value("VAR5").is_empty());
}

#[test]
fn test_task_context_update() {
    let variables1: IndexMap<String, String> = IndexMap::from([
        ("DIR1".to_string(), "dir1".to_string()),
        ("DIR2".to_string(), "dir2".to_string()),
        ("DIR3".to_string(), "dir3".to_string()),
    ]);
    let mut ctx: Context = Context::new(&variables1);
    let variables2: IndexMap<String, String> = IndexMap::from([
        ("NEWDIR1".to_string(), "newdir1".to_string()),
        ("NEWDIR2".to_string(), "newdir2".to_string()),
    ]);
    ctx.update(&variables2);
    assert_eq!(ctx.value("DIR1"), "dir1");
    assert_eq!(ctx.value("DIR2"), "dir2");
    assert_eq!(ctx.value("DIR3"), "dir3");
    assert_eq!(ctx.value("NEWDIR1"), "newdir1");
    assert_eq!(ctx.value("NEWDIR2"), "newdir2");
}

#[test]
fn test_task_context_expand_str() {
    let variables: IndexMap<String, String> = IndexMap::from([
        ("VAR1".to_string(), "var1".to_string()),
        ("VAR2".to_string(), "var2".to_string()),
        ("VAR3".to_string(), "var3".to_string()),
    ]);
    let ctx: Context = Context::new(&variables);
    assert_eq!(
        ctx.expand_str("Testing $#[VAR1] expansion").unwrap(),
        "Testing var1 expansion"
    );
    assert_eq!(
        ctx.expand_str("Testing $#[VAR2] expansion").unwrap(),
        "Testing var2 expansion"
    );
    assert_eq!(
        ctx.expand_str("Testing $#[VAR3] expansion").unwrap(),
        "Testing var3 expansion"
    );
    assert_eq!(
        ctx.expand_str("Testing $#[VAR1] $#[VAR2] $#[VAR3] expansion")
            .unwrap(),
        "Testing var1 var2 var3 expansion"
    );
}

#[test]
fn test_task_context_nested_expand_str() {
    let variables: IndexMap<String, String> = IndexMap::from([
        ("VAR1".to_string(), "$#[VAR4]".to_string()),
        ("VAR2".to_string(), "var2".to_string()),
        ("VAR3".to_string(), "var3".to_string()),
        ("VAR4".to_string(), "var4".to_string()),
    ]);
    let ctx: Context = Context::new(&variables);
    assert_eq!(
        ctx.expand_str("Testing $#[VAR1] expansion").unwrap(),
        "Testing var4 expansion"
    );
    assert_eq!(
        ctx.expand_str("Testing $#[VAR2] expansion").unwrap(),
        "Testing var2 expansion"
    );
    assert_eq!(
        ctx.expand_str("Testing $#[VAR3] expansion").unwrap(),
        "Testing var3 expansion"
    );
    assert_eq!(
        ctx.expand_str("Testing $#[VAR1] $#[VAR2] $#[VAR3] expansion")
            .unwrap(),
        "Testing var4 var2 var3 expansion"
    );
}

#[test]
fn test_task_context_update_nested() {
    let variables1: IndexMap<String, String> = IndexMap::from([
        ("DIR1".to_string(), "dir1".to_string()),
        ("DIR2".to_string(), "dir2".to_string()),
        ("DIR3".to_string(), "dir3".to_string()),
    ]);
    let mut ctx: Context = Context::new(&variables1);
    let variables2: IndexMap<String, String> = IndexMap::from([
        ("NEWDIR1".to_string(), "$#[DIR1]/newdir1".to_string()),
        ("NEWDIR2".to_string(), "$#[DIR2]/newdir2".to_string()),
    ]);
    ctx.update(&variables2);
    assert_eq!(
        ctx.expand_str("/dir/$#[NEWDIR1]/file1.txt").unwrap(),
        "/dir/dir1/newdir1/file1.txt"
    );
    assert_eq!(
        ctx.expand_str("/dir/$#[NEWDIR2]/file2.txt").unwrap(),
        "/dir/dir2/newdir2/file2.txt"
    );
}

#[test]
fn test_task_context_expand_path() {
    let variables: IndexMap<String, String> = IndexMap::from([
        ("VAR1".to_string(), "var1".to_string()),
        ("VAR2".to_string(), "var2".to_string()),
        ("VAR3".to_string(), "var3".to_string()),
    ]);
    let ctx: Context = Context::new(&variables);
    let path: String = String::from("/dir1/$#[VAR1]/$#[VAR2]/$#[VAR3]/file1.txt");
    assert_eq!(
        ctx.expand_path(&path).unwrap(),
        String::from("/dir1/var1/var2/var3/file1.txt")
    );
}

#[test]
fn test_task_context_expand_invalid() {
    let variables: IndexMap<String, String> = IndexMap::from([
        ("VAR1".to_string(), "var1".to_string()),
    ]);
    let ctx: Context = Context::new(&variables);
    let path: String = String::from("/dir1/$#[VAR1]/$#[VAR2]/file1.txt");
    let result: Result<String, BError> = ctx.expand_path(&path);

    match result {
        Ok(path) => {
            assert!(
                false,
                "Expected an error, but got an path '{}'",
                path
            );
        }
        Err(err_msg) => {
            assert_eq!(
                String::from(
                    "Failed to expand context: no such variable '$#[VAR2]' in context"
                ),
                err_msg.message()
            );
        }
    }
}

#[test]
fn test_task_context_expand_empty() {
    let variables: IndexMap<String, String> = IndexMap::from([
        ("VAR1".to_string(), "var1".to_string()),
        ("VAR2".to_string(), "".to_string()),
        ("VAR3".to_string(), "var3".to_string()),
    ]);
    let ctx: Context = Context::new(&variables);
    let path: String = String::from("/dir1/$#[VAR1]/$#[VAR2]/$#[VAR3]/file1.txt");
    assert_eq!(
        ctx.expand_path(&path).unwrap(),
        String::from("/dir1/var1/$#[VAR2]/var3/file1.txt")
    );
}
