use distributed_timer::assets::{asset_path, plan_asset, AssetPlan};
use distributed_timer::keyspace::key_of_channel;
use distributed_timer::models::{DonationMethod, InstanceProperties};

#[test]
fn keys_of_channels() {
    assert_eq!(key_of_channel("__keyspace@0__:abc_1"), "abc_1");
    assert_eq!(key_of_channel("nocolon"), "nocolon");
    assert_eq!(key_of_channel("a:b:"), "");
    assert_eq!(key_of_channel(""), "");
}

#[test]
fn asset_paths() {
    assert_eq!(asset_path("/app.js"), "app.js");
    assert_eq!(asset_path("//x/y.css"), "x/y.css");
    assert_eq!(asset_path("/"), "");
    assert_eq!(asset_path("plain"), "plain");
}

#[test]
fn asset_plans() {
    match plan_asset("logo.png".to_string(), true, true) {
        AssetPlan::Serve { path, content_type } => {
            assert_eq!(path, "logo.png");
            assert_eq!(content_type, "image/png");
        }
        AssetPlan::NotFound => panic!("expected the file"),
    }
    match plan_asset("missing".to_string(), false, true) {
        AssetPlan::Serve { path, content_type } => {
            assert_eq!(path, "200.html");
            assert_eq!(content_type, "text/html");
        }
        AssetPlan::NotFound => panic!("expected the index"),
    }
    match plan_asset("data.unknownext".to_string(), true, false) {
        AssetPlan::Serve { content_type, .. } => {
            assert_eq!(content_type, "application/octet-stream")
        }
        AssetPlan::NotFound => panic!("expected the file"),
    }
    assert!(matches!(plan_asset("x".to_string(), false, false), AssetPlan::NotFound));
}

#[test]
fn instance_properties_from_config() {
    let p = InstanceProperties::from_config(
        Some("true".to_string()),
        Some("donate-id".to_string()),
        None,
    );
    assert!(p.demo);
    match p.donation.as_deref() {
        Some([DonationMethod::PayPal(id)]) => assert_eq!(id, "donate-id"),
        other => panic!("unexpected {:?}", other),
    }
    assert_eq!(p.s3_host, "");
    let q = InstanceProperties::from_config(Some("yes".to_string()), None, Some("h".to_string()));
    assert!(!q.demo);
    assert!(q.donation.is_none());
    assert_eq!(q.s3_host, "h");
}
