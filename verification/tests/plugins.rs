use sst_index::plugins::{setup_datanode_plugins, start_datanode_plugins};

#[test]
fn datanode_has_no_plugins_of_its_own() {
    let mut plugins = vec!["metrics"];
    let result: Result<(), String> = setup_datanode_plugins(&mut plugins, &["option"], &"datanode");
    assert_eq!(result, Ok(()));
    assert_eq!(plugins, vec!["metrics"]);

    let result: Result<(), String> = start_datanode_plugins(plugins);
    assert_eq!(result, Ok(()));
}
