//! The images browser.

use mnml_aws::command::Ran;
use mnml_aws::ecr::app::{image_pull_string, App, Fetch, TabSpec};
use mnml_aws::ecr::config::{Config, Tab};
use mnml_aws::ecr::keys::{handle, Action};
use mnml_aws::keys::{Common, Key};
use mnml_aws::ecr::ecr::{
    describe_images_args, describe_images_error, describe_repositories_args, fmt_bytes, short_digest,
    short_timestamp, sort_images, sort_repositories, ImageDetail, ImageScanningConfiguration, Item,
    Repository, ScanFindingsSummary, ScanStatus,
};
use mnml_aws::ecr::ui::{draw_detail, draw_list, vuln_color_for};
use mnml_aws::json::{read_json, Json};
use mnml_aws::screen::Color;
use mnml_aws::table::Table;

fn image(tag: &str, pushed: Option<&str>) -> ImageDetail {
    ImageDetail {
        repository_name: "api".into(),
        digest: None,
        tags: vec![tag.into()],
        size_bytes: None,
        pushed_at: pushed.map(|s| s.to_string()),
        manifest_media_type: None,
        artifact_media_type: None,
        scan_summary: None,
        scan_status: None,
    }
}

fn repository(name: &str) -> Repository {
    Repository {
        name: name.into(),
        arn: format!("arn:aws:ecr:us-east-1:1:repository/{name}"),
        registry_id: None,
        uri: Some(format!("1.dkr.ecr.us-east-1.amazonaws.com/{name}")),
        created_at: None,
        tag_mutability: None,
        scanning: None,
        encryption: None,
    }
}

fn summary(v: &Json) -> ScanFindingsSummary {
    let mut counts: Table<String, u64> = Table::new();
    if let Some(Json::Object(members)) = v.get("findingSeverityCounts") {
        for (k, n) in members {
            counts.insert(k.clone(), n.as_count().unwrap());
        }
    }
    ScanFindingsSummary {
        completed_at: v.text_at("imageScanCompletedAt"),
        vuln_source_updated_at: v.text_at("vulnerabilitySourceUpdatedAt"),
        counts,
    }
}

fn found(severity: &str, n: u64) -> Option<ScanFindingsSummary> {
    let mut counts: Table<String, u64> = Table::new();
    counts.insert(severity.to_string(), n);
    Some(ScanFindingsSummary { completed_at: None, vuln_source_updated_at: None, counts })
}

fn app(kind: &str, repository: Option<&str>) -> App {
    App::new(Config {
        region: None,
        refresh_interval_secs: 60,
        tabs: vec![Tab {
            name: "x".into(),
            kind: kind.into(),
            repository: repository.map(|s| s.to_string()),
            region: None,
        }],
    })
    .ok()
    .unwrap()
}

#[test]
fn tab_spec_rejects_images_without_repository() {
    let t = Tab {
        name: "bad".into(),
        kind: "images".into(),
        repository: None,
        region: None,
    };
    assert!(TabSpec::resolve(&t, None).is_err());
}

#[test]
fn image_pull_string_prefers_tag_then_digest() {
    let tagged = ImageDetail {
        repository_name: "api".into(),
        digest: Some("sha256:abc".into()),
        tags: vec!["v1.0".into()],
        size_bytes: None,
        pushed_at: None,
        manifest_media_type: None,
        artifact_media_type: None,
        scan_summary: None,
        scan_status: None,
    };
    assert_eq!(image_pull_string(&tagged), "api:v1.0");
    let untagged = ImageDetail {
        repository_name: "api".into(),
        digest: Some("sha256:abc".into()),
        tags: vec![],
        size_bytes: None,
        pushed_at: None,
        manifest_media_type: None,
        artifact_media_type: None,
        scan_summary: None,
        scan_status: None,
    };
    assert_eq!(image_pull_string(&untagged), "api@sha256:abc");
}

#[test]
fn rejects_images_without_repository() {
    let cfg = Config {
        region: None,
        refresh_interval_secs: 60,
        tabs: vec![Tab {
            name: "x".into(),
            kind: "images".into(),
            repository: None,
            region: None,
        }],
    };
    assert!(cfg.validate().is_err());
}

#[test]
fn ecr_fmt_bytes_picks_right_unit() {
    assert_eq!(fmt_bytes(500), "500 B");
    assert_eq!(fmt_bytes(2048), "2.0 KB");
    assert_eq!(fmt_bytes(50_331_648), "48.0 MB");
}

#[test]
fn byte_counts_are_rounded() {
    assert_eq!(fmt_bytes(1023), "1023 B");
    assert_eq!(fmt_bytes(1536), "1.5 KB");
    assert_eq!(fmt_bytes(1024 * 1024 * 1024), "1.0 GB");
}

#[test]
fn short_timestamp_drops_seconds() {
    assert_eq!(short_timestamp("2026-06-06T18:30:00.123Z"), "2026-06-06 18:30");
}

#[test]
fn short_digest_strips_sha_prefix_and_truncates() {
    assert_eq!(short_digest("sha256:abc1234567890def1234567890abcdef"), "abc123456789");
    assert_eq!(short_digest("noprefix"), "noprefix");
}

#[test]
fn parses_describe_repositories_response() {
    let json = r#"{
            "repositories": [
                {
                    "repositoryName": "api",
                    "repositoryArn": "arn:aws:ecr:us-east-1:1:repository/api",
                    "registryId": "111111111111",
                    "repositoryUri": "111111111111.dkr.ecr.us-east-1.amazonaws.com/api",
                    "createdAt": "2024-01-01T00:00:00.000Z",
                    "imageTagMutability": "MUTABLE",
                    "imageScanningConfiguration": {"scanOnPush": true}
                }
            ]
        }"#;
    let resp = read_json(json).ok().unwrap();
    let all = resp.array_at("repositories").unwrap();
    assert_eq!(all.len(), 1);
    let r = Repository {
        name: all[0].text_at("repositoryName").unwrap(),
        arn: all[0].text_at("repositoryArn").unwrap(),
        registry_id: all[0].text_at("registryId"),
        uri: all[0].text_at("repositoryUri"),
        created_at: all[0].text_at("createdAt"),
        tag_mutability: all[0].text_at("imageTagMutability"),
        scanning: all[0].get("imageScanningConfiguration").map(|s| ImageScanningConfiguration {
            scan_on_push: match s.get("scanOnPush") {
                Some(Json::Bool(b)) => Some(*b),
                _ => None,
            },
        }),
        encryption: None,
    };
    assert_eq!(r.name, "api");
    assert_eq!(r.scanning.as_ref().and_then(|s| s.scan_on_push), Some(true));
    assert_eq!(Item::Repository(r).primary_label(), "api");
}

#[test]
fn parses_scan_findings_summary() {
    let json = r#"{
            "imageDetails": [
                {
                    "repositoryName": "api",
                    "imageDigest": "sha256:abc",
                    "imageTags": ["v1.2.3"],
                    "imageScanFindingsSummary": {
                        "imageScanCompletedAt": "2026-06-06T18:30:00.000Z",
                        "findingSeverityCounts": {
                            "CRITICAL": 2,
                            "HIGH": 5,
                            "MEDIUM": 10,
                            "LOW": 8,
                            "INFORMATIONAL": 3
                        }
                    },
                    "imageScanStatus": {
                        "status": "COMPLETE",
                        "description": "The scan was completed successfully."
                    }
                }
            ]
        }"#;
    let resp = read_json(json).ok().unwrap();
    let img = &resp.array_at("imageDetails").unwrap()[0];
    let scan = summary(img.get("imageScanFindingsSummary").expect("scan summary present"));
    assert_eq!(scan.critical(), 2);
    assert_eq!(scan.high(), 5);
    assert_eq!(scan.medium(), 10);
    assert_eq!(scan.low(), 8);
    assert_eq!(scan.informational(), 3);
    assert_eq!(scan.total(), 28);
    assert_eq!(scan.wide_total(), 28);
    let status = img.get("imageScanStatus").expect("scan status present");
    let status = ScanStatus {
        status: status.text_at("status"),
        description: status.text_at("description"),
    };
    assert_eq!(status.status.as_deref(), Some("COMPLETE"));
}

#[test]
fn scan_summary_missing_severity_counts_as_zero() {
    let json = r#"{
            "findingSeverityCounts": {"CRITICAL": 1}
        }"#;
    let scan = summary(&read_json(json).ok().unwrap());
    assert_eq!(scan.critical(), 1);
    assert_eq!(scan.high(), 0);
    assert_eq!(scan.medium(), 0);
}

#[test]
fn item_secondary_label_surfaces_critical_chip() {
    let mut img = image("v1", None);
    img.size_bytes = Some(1024 * 1024);
    img.scan_summary = found("CRITICAL", 3);
    let label = Item::Image(img).secondary_label();
    assert!(label.contains("⚠ 3c"));
}

#[test]
fn item_secondary_label_falls_back_to_high_chip() {
    let mut img = image("v1", None);
    img.scan_summary = found("HIGH", 7);
    let label = Item::Image(img).secondary_label();
    assert!(label.contains("⚠ 7h"));
    assert!(!label.contains("c"));
}

#[test]
fn the_newest_image_comes_first() {
    let sorted = sort_images(vec![
        image("old", Some("2024-01-01T00:00:00Z")),
        image("none", None),
        image("new", Some("2026-01-01T00:00:00Z")),
    ]);
    assert_eq!(sorted[0].tags[0], "new");
    assert_eq!(sorted[1].tags[0], "old");
    assert_eq!(sorted[2].tags[0], "none");
}

#[test]
fn repositories_are_sorted_by_name() {
    let sorted = sort_repositories(vec![repository("b"), repository("a")]);
    assert_eq!(sorted[0].name, "a");
    assert_eq!(sorted[1].name, "b");
}

#[test]
fn critical_findings_are_red() {
    let mut img = image("v1", None);
    img.scan_summary = found("CRITICAL", 1);
    assert_eq!(vuln_color_for(&Item::Image(img)).fg, Color::Red);
}

#[test]
fn images_are_listed_and_copied() {
    let mut a = app("images", Some("api"));
    match a.refresh_active() {
        Fetch::Images { repository, region } => {
            assert_eq!(repository, "api");
            assert!(region.is_none());
        },
        Fetch::Repositories { .. } => panic!("images are listed"),
    }
    a.refresh_done(Ok(vec![Item::Image(image("v1", Some("2026-06-06T18:30:00Z")))]), 0);
    assert_eq!(draw_list(a.active(), 10).lines.len(), 1);
    assert!(draw_detail(a.focused_item()).len() > 1);
    let y = a.yank_arn().unwrap();
    assert_eq!(y.payload, "api:v1");
    a.arn_copied(&y, &Ok(()));
    assert!(a.status.contains(&y.label));
    assert!(a.open_console().unwrap().contains("us-east-1"));
    let mut r = app("repositories", None);
    r.refresh_done(Ok(vec![Item::Repository(repository("api"))]), 0);
    assert!(r.yank_arn().unwrap().payload.contains("api"));
}

#[test]
fn arguments_and_errors_of_aws_images() {
    let args = describe_images_args("api", Some("eu-west-1"), Some("t"));
    for pair in [("--repository-name", "api"), ("--region", "eu-west-1"), ("--next-token", "t")] {
        let at = args.iter().position(|a| a == pair.0).unwrap();
        assert_eq!(args[at + 1], pair.1);
    }
    assert!(!describe_repositories_args(None, None).iter().any(|a| a == "--region"));
    assert!(describe_images_error("api", &Ran::Failed("denied".into())).unwrap().contains("denied"));
    assert!(describe_images_error("api", &Ran::Done("".into())).is_none());
}

#[test]
fn keys_of_the_images() {
    let app = app("repositories", None);
    assert_eq!(handle(Key::Char('y'), false, &app), Some(Action::YankArn));
    assert_eq!(handle(Key::Char('x'), false, &app), None);
    assert_eq!(handle(Key::Char('j'), false, &app), Some(Action::Common(Common::Move(1))));
    assert_eq!(handle(Key::Char('c'), true, &app), Some(Action::Common(Common::Quit)));
}
