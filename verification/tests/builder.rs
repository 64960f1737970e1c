use axum_static_s3::{ClientSource, S3OriginBuilder};

fn client() -> aws_sdk_s3::Client {
    let config = aws_sdk_s3::Config::builder()
        .behavior_version(aws_sdk_s3::config::BehaviorVersion::latest())
        .build();
    aws_sdk_s3::Client::from_conf(config)
}

fn sdk_config() -> aws_config::SdkConfig {
    aws_config::SdkConfig::builder().build()
}

#[test]
fn a_builder_without_client_and_configuration_builds_nothing() {
    let result = S3OriginBuilder::new().bucket("my-bucket").prefix("my-prefix").build();
    assert_eq!(result.err(), Some("either s3_client or aws_sdk_config must be provided"));
}

#[test]
fn a_builder_without_bucket_builds_nothing() {
    assert_eq!(S3OriginBuilder::new().client(client()).build().err(), Some("bucket is required"));
    assert_eq!(S3OriginBuilder::new().build().err(), Some("bucket is required"));
    assert_eq!(S3OriginBuilder::default().build().err(), Some("bucket is required"));
}

#[test]
fn a_builder_with_an_empty_bucket_builds_nothing() {
    assert_eq!(
        S3OriginBuilder::new().bucket("").client(client()).build().err(),
        Some("bucket must not be empty")
    );
    assert_eq!(S3OriginBuilder::new().bucket("").build().err(), Some("bucket must not be empty"));
}

#[test]
fn a_builder_with_a_limit_that_is_not_positive_builds_nothing() {
    for limit in [0, -1, i64::MIN] {
        assert_eq!(
            S3OriginBuilder::new().bucket("b").client(client()).max_size(limit).build().err(),
            Some("max_size must be positive")
        );
    }
    assert!(S3OriginBuilder::new().bucket("b").client(client()).max_size(1).build().is_ok());
}

#[test]
fn the_reasons_are_tried_in_order() {
    assert_eq!(S3OriginBuilder::new().max_size(0).build().err(), Some("bucket is required"));
    assert_eq!(
        S3OriginBuilder::new().bucket("b").max_size(0).build().err(),
        Some("either s3_client or aws_sdk_config must be provided")
    );
}

#[test]
fn a_built_origin_has_the_settings_and_the_defaults() {
    let origin = S3OriginBuilder::new().bucket("files").client(client()).build().unwrap();
    assert_eq!(origin.bucket(), "files");
    assert_eq!(origin.bucket_prefix(), "");
    assert_eq!(origin.prune_path(), 0);
    assert_eq!(origin.max_size(), None);
    assert!(matches!(origin.client(), ClientSource::Client(_)));

    let origin = S3OriginBuilder::new()
        .bucket("my-static-files-bucket")
        .prefix("static/")
        .prune_path(1)
        .max_size(1024 * 1024 * 12)
        .config(sdk_config())
        .build()
        .unwrap();
    assert_eq!(origin.bucket(), "my-static-files-bucket");
    assert_eq!(origin.bucket_prefix(), "static/");
    assert_eq!(origin.prune_path(), 1);
    assert_eq!(origin.max_size(), Some(12582912));
    assert!(matches!(origin.client(), ClientSource::Config(_)));
}

#[test]
fn a_client_is_taken_rather_than_the_configuration() {
    let origin = S3OriginBuilder::new()
        .bucket("b")
        .config(sdk_config())
        .client(client())
        .build()
        .unwrap();
    assert!(matches!(origin.client(), ClientSource::Client(_)));
    let origin = S3OriginBuilder::new()
        .bucket("b")
        .client(client())
        .config(sdk_config())
        .build()
        .unwrap();
    assert!(matches!(origin.client(), ClientSource::Client(_)));
}

#[test]
fn the_last_setting_counts() {
    let origin = S3OriginBuilder::new()
        .bucket("first")
        .bucket("second")
        .prefix("a/")
        .prefix("b/")
        .prune_path(4)
        .prune_path(2)
        .max_size(10)
        .max_size(20)
        .client(client())
        .build()
        .unwrap();
    assert_eq!(origin.bucket(), "second");
    assert_eq!(origin.bucket_prefix(), "b/");
    assert_eq!(origin.prune_path(), 2);
    assert_eq!(origin.max_size(), Some(20));
}

#[test]
fn a_clone_is_the_same_origin() {
    let origin = S3OriginBuilder::new()
        .bucket("my-bucket")
        .prefix("static/")
        .prune_path(1)
        .max_size(100)
        .client(client())
        .build()
        .unwrap();
    let other = origin.clone();
    assert_eq!(other.bucket(), origin.bucket());
    assert_eq!(other.bucket_prefix(), origin.bucket_prefix());
    assert_eq!(other.prune_path(), origin.prune_path());
    assert_eq!(other.max_size(), origin.max_size());
}
