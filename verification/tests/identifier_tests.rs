use rpaas::identifier::get_resource_details_from_resource_id;

#[test]
fn parses_documented_positions() {
    let id = "/subscriptions/S1/resourceGroups/RG1/providers/Provider.Type/resType/name1";
    let d = get_resource_details_from_resource_id(id).unwrap();
    assert_eq!(d.subscription_id, "S1");
    assert_eq!(d.resource_group_name, "RG1");
    assert_eq!(d.provider_type, "Provider.Type");
    assert_eq!(d.resource_type, "resType");
    assert_eq!(d.name, "name1");
}

#[test]
fn trims_leading_and_trailing_separators() {
    let id = "///subscriptions/S1/resourceGroups/RG1/providers/P.T/rt/n///";
    let d = get_resource_details_from_resource_id(id).unwrap();
    assert_eq!(d.subscription_id, "S1");
    assert_eq!(d.name, "n");
}

#[test]
fn short_path_is_typed_error_not_a_crash() {
    let id = "/subscriptions/S1/resourceGroups/RG1";
    let e = get_resource_details_from_resource_id(id).unwrap_err();
    assert_eq!(e.path, id);
    assert_eq!(
        e.message(),
        "malformed resource identifier: /subscriptions/S1/resourceGroups/RG1"
    );
}

#[test]
fn empty_path_is_error() {
    let e = get_resource_details_from_resource_id("").unwrap_err();
    assert_eq!(e.path, "");
}

#[test]
fn all_separators_is_error() {
    let e = get_resource_details_from_resource_id("/////").unwrap_err();
    assert_eq!(e.path, "/////");
}

#[test]
fn eight_segments_exactly_suffice() {
    let d = get_resource_details_from_resource_id("a/b/c/d/e/f/g/h").unwrap();
    assert_eq!(d.subscription_id, "b");
    assert_eq!(d.resource_group_name, "d");
    assert_eq!(d.provider_type, "f");
    assert_eq!(d.resource_type, "g");
    assert_eq!(d.name, "h");
}

#[test]
fn empty_segments_count() {
    // Interior separators delimit empty segments, as string splitting does.
    let d = get_resource_details_from_resource_id("a//c//e//g/h").unwrap();
    assert_eq!(d.subscription_id, "");
    assert_eq!(d.resource_group_name, "");
    assert_eq!(d.provider_type, "");
    assert_eq!(d.resource_type, "g");
    assert_eq!(d.name, "h");
}
