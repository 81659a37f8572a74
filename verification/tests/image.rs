use floki::BuildSpec;
use floki::DocNode;
use floki::FlokiError;
use floki::Image;
use floki::ObtainStep;
use floki::ProcessStatus;
use floki::SpawnOutcome;
use floki::YamlSpec;
use floki::build_completed;
use floki::image_exists_locally;
use floki::parse_documents;
use floki::pull_args;
use floki::pull_image;

/// The node under `key` in a mapping node.
fn mapping_entry<'a>(doc: &'a DocNode, key: &str) -> &'a DocNode {
    match doc {
        DocNode::Mapping(entries) => {
            for (k, v) in entries {
                if k.as_deref() == Some(key) {
                    return v;
                }
            }
            panic!("key {} not found", key);
        }
        _ => panic!("not a mapping"),
    }
}

fn image_from_config(text: &str) -> Image {
    let docs = parse_documents(text).expect("configuration should parse");
    let node = mapping_entry(&docs[0], "image");
    Image::from_doc(node).expect("image entry should decode")
}

#[test]
fn test_image_spec_by_string() {
    let yaml = "image: foo";
    let expected = Image::Name("foo".to_string());
    let actual = image_from_config(yaml);
    assert!(actual == expected);
}

#[test]
fn test_image_spec_by_build_spec() {
    let yaml = "image:\n  build:\n    name: foo\n    dockerfile: Dockerfile.test \n    context: ./context\n    target: builder";
    let expected = Image::Build {
        build: BuildSpec {
            name: "foo".to_string(),
            dockerfile: "Dockerfile.test".to_string(),
            context: "./context".to_string(),
            target: Some("builder".to_string()),
        },
    };
    let actual = image_from_config(yaml);
    assert!(actual == expected);
}

#[test]
fn build_spec_defaults_apply() {
    let yaml = "image:\n  build:\n    name: foo";
    let expected = Image::Build {
        build: BuildSpec {
            name: "foo".to_string(),
            dockerfile: "Dockerfile".to_string(),
            context: ".".to_string(),
            target: None,
        },
    };
    assert_eq!(image_from_config(yaml), expected);
}

#[test]
fn yaml_spec_decodes() {
    let yaml = "image:\n  yaml:\n    file: images.yaml\n    key: versions.0.image";
    let expected = Image::Yaml {
        yaml: YamlSpec {
            file: "images.yaml".to_string(),
            key: "versions.0.image".to_string(),
        },
    };
    assert_eq!(image_from_config(yaml), expected);
}

#[test]
fn build_is_tried_before_yaml() {
    let yaml = "image:\n  build:\n    name: foo\n  yaml:\n    file: f.yaml\n    key: k";
    match image_from_config(yaml) {
        Image::Build { build } => assert_eq!(build.name, "foo"),
        other => panic!("expected the build variant, got {:?}", other),
    }
}

#[test]
fn malformed_build_entry_falls_through_to_yaml() {
    let yaml = "image:\n  build: notamapping\n  yaml:\n    file: f.yaml\n    key: k";
    let expected = Image::Yaml {
        yaml: YamlSpec { file: "f.yaml".to_string(), key: "k".to_string() },
    };
    assert_eq!(image_from_config(yaml), expected);
}

#[test]
fn name_of_literal_image_is_the_string_itself() {
    let image = Image::Name("alpine:3".to_string());
    assert_eq!(image.name("").unwrap(), "alpine:3");
}

#[test]
fn name_of_build_image_appends_suffix_and_repeats() {
    let image = Image::Build {
        build: BuildSpec {
            name: "foo".to_string(),
            dockerfile: "Dockerfile".to_string(),
            context: ".".to_string(),
            target: None,
        },
    };
    assert_eq!(image.name("").unwrap(), "foo:floki");
    assert_eq!(image.name("").unwrap(), "foo:floki");
}

#[test]
fn name_of_yaml_image_reads_the_document() {
    let image = Image::Yaml {
        yaml: YamlSpec {
            file: "versions.yaml".to_string(),
            key: "images.1.name".to_string(),
        },
    };
    let document = "images:\n  - name: first\n  - name: second";
    assert_eq!(image.name(document).unwrap(), "second");
}

#[test]
fn name_of_yaml_image_reports_missing_key() {
    let image = Image::Yaml {
        yaml: YamlSpec {
            file: "versions.yaml".to_string(),
            key: "images.7".to_string(),
        },
    };
    let document = "images:\n  - one\n  - two";
    let err = image.name(document).unwrap_err();
    assert_eq!(
        err,
        FlokiError::FailedToFindYamlKey {
            key: "images.7".to_string(),
            file: "versions.yaml".to_string(),
        }
    );
}

#[test]
fn name_of_yaml_image_reports_malformed_document() {
    let image = Image::Yaml {
        yaml: YamlSpec {
            file: "broken.yaml".to_string(),
            key: "a".to_string(),
        },
    };
    let err = image.name("a: [unclosed").unwrap_err();
    assert_eq!(err, FlokiError::MalformedDocument { file: "broken.yaml".to_string() });
}

#[test]
fn obtain_image_of_build_names_the_invocation() {
    let image = Image::Build {
        build: BuildSpec {
            name: "foo".to_string(),
            dockerfile: "Dockerfile.test".to_string(),
            context: "./context".to_string(),
            target: Some("builder".to_string()),
        },
    };
    match image.obtain_image("/work", "").unwrap() {
        ObtainStep::RunBuild { image: name, args } => {
            assert_eq!(name, "foo:floki");
            assert_eq!(
                args,
                vec![
                    "build".to_string(),
                    "-t".to_string(),
                    "foo:floki".to_string(),
                    "-f".to_string(),
                    "/work/Dockerfile.test".to_string(),
                    "--target".to_string(),
                    "builder".to_string(),
                    "/work/./context".to_string(),
                ]
            );
        }
        other => panic!("expected a build step, got {:?}", other),
    }
}

#[test]
fn obtain_image_of_build_without_target_omits_the_flag() {
    let image = Image::Build {
        build: BuildSpec {
            name: "foo".to_string(),
            dockerfile: "Dockerfile".to_string(),
            context: ".".to_string(),
            target: None,
        },
    };
    match image.obtain_image("/work", "").unwrap() {
        ObtainStep::RunBuild { image: name, args } => {
            assert_eq!(name, "foo:floki");
            assert_eq!(
                args,
                vec![
                    "build".to_string(),
                    "-t".to_string(),
                    "foo:floki".to_string(),
                    "-f".to_string(),
                    "/work/Dockerfile".to_string(),
                    "/work/.".to_string(),
                ]
            );
        }
        other => panic!("expected a build step, got {:?}", other),
    }
}

#[test]
fn obtain_image_of_literal_is_resolved_directly() {
    let image = Image::Name("alpine:3".to_string());
    match image.obtain_image("/work", "").unwrap() {
        ObtainStep::Resolved(name) => assert_eq!(name, "alpine:3"),
        other => panic!("expected a resolved name, got {:?}", other),
    }
}

#[test]
fn build_completed_success_returns_the_name() {
    let status = ProcessStatus { code: Some(0) };
    assert_eq!(build_completed("foo:floki".to_string(), &status).unwrap(), "foo:floki");
}

#[test]
fn build_completed_failure_carries_name_and_status() {
    let status = ProcessStatus { code: Some(2) };
    let err = build_completed("foo:floki".to_string(), &status).unwrap_err();
    match err {
        FlokiError::FailedToBuildImage { image, exit_status } => {
            assert_eq!(image, "foo:floki");
            assert!(!exit_status.process_description.is_empty());
            assert_eq!(exit_status.exit_status, status);
        }
        other => panic!("expected a build failure, got {:?}", other),
    }
}

#[test]
fn pull_image_follows_the_exit_status() {
    assert!(pull_image("alpine:3", &ProcessStatus { code: Some(0) }).is_ok());
    let err = pull_image("alpine:3", &ProcessStatus { code: Some(1) }).unwrap_err();
    match err {
        FlokiError::FailedToPullImage { image, exit_status } => {
            assert_eq!(image, "alpine:3");
            assert!(!exit_status.process_description.is_empty());
            assert_eq!(exit_status.exit_status.code, Some(1));
        }
        other => panic!("expected a pull failure, got {:?}", other),
    }
    assert_eq!(pull_args("alpine:3"), vec!["pull".to_string(), "alpine:3".to_string()]);
}

#[test]
fn image_exists_locally_reads_the_outcome() {
    let exists = image_exists_locally("foo", &SpawnOutcome::Completed(ProcessStatus { code: Some(0) }));
    assert_eq!(exists.unwrap(), true);
    let absent = image_exists_locally("foo", &SpawnOutcome::Completed(ProcessStatus { code: Some(1) }));
    assert_eq!(absent.unwrap(), false);
    let launch = image_exists_locally(
        "foo",
        &SpawnOutcome::LaunchFailed("no such file or directory".to_string()),
    );
    match launch.unwrap_err() {
        FlokiError::FailedToCheckForImage { image, error } => {
            assert_eq!(image, "foo");
            assert_eq!(error, "no such file or directory");
        }
        other => panic!("expected a launch failure, got {:?}", other),
    }
}

#[test]
fn round_trip_preserves_every_variant() {
    let literal = Image::Name("alpine:3".to_string());
    let build = Image::Build {
        build: BuildSpec {
            name: "foo".to_string(),
            dockerfile: "Dockerfile.test".to_string(),
            context: "./context".to_string(),
            target: Some("builder".to_string()),
        },
    };
    let build_plain = Image::Build {
        build: BuildSpec {
            name: "bar".to_string(),
            dockerfile: "Dockerfile".to_string(),
            context: ".".to_string(),
            target: None,
        },
    };
    let yaml = Image::Yaml {
        yaml: YamlSpec { file: "images.yaml".to_string(), key: "a.0.b".to_string() },
    };
    for image in [literal, build, build_plain, yaml] {
        let doc = image.to_doc();
        assert_eq!(Image::from_doc(&doc), Some(image));
    }
}
