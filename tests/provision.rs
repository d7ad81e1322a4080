use waitress::provision::{
    bind_source, bootstrap_script, decimal_string, fresh_plan, image_tag, normalize_line_endings,
    restore_plan, ContainerSpec, ProvisionStep,
};
use waitress::version::ServerJarInfo;

const ID: u128 = 0x67e5_5044_10b1_426f_9247_bb68_0e5f_e0c8;
const NAME: &str = "waitress-67e55044-10b1-426f-9247-bb680e5fe0c8";
const DIR: &str = "volumes/waitress-67e55044-10b1-426f-9247-bb680e5fe0c8";

#[test]
fn decimal_text() {
    assert_eq!(decimal_string(0), "0");
    assert_eq!(decimal_string(7), "7");
    assert_eq!(decimal_string(10), "10");
    assert_eq!(decimal_string(25600), "25600");
    assert_eq!(decimal_string(65535), "65535");
    assert_eq!(decimal_string(u32::MAX), "4294967295");
}

#[test]
fn image_tag_for_jdk() {
    assert_eq!(image_tag(17), "openjdk:17");
    assert_eq!(image_tag(8), "openjdk:8");
    assert_eq!(image_tag(255), "openjdk:255");
}

#[test]
fn line_endings_normalised() {
    assert_eq!(normalize_line_endings("a\r\nb\r\n"), "a\nb\n");
    assert_eq!(normalize_line_endings("\r\r\n\n\r"), "\r\n\n\r");
    assert_eq!(normalize_line_endings(""), "");
    assert_eq!(normalize_line_endings("no breaks"), "no breaks");
}

#[test]
fn bootstrap_script_text() {
    let s = bootstrap_script("https://example.test/server.jar", "curl -o server.jar $JAR_URL\r\necho ok\r\n");
    assert_eq!(s, "JAR_URL=https://example.test/server.jar\ncurl -o server.jar $JAR_URL\necho ok\n");
}

#[test]
fn bind_source_strips_extended_prefix_on_windows() {
    assert_eq!(bind_source("\\\\?\\C:\\srv\\volumes\\w", true), "C:\\srv\\volumes\\w");
    assert_eq!(bind_source("C:\\srv\\volumes\\w", true), "C:\\srv\\volumes\\w");
    assert_eq!(bind_source("\\\\?\\C:\\w", false), "\\\\?\\C:\\w");
    assert_eq!(bind_source("/srv/volumes/w", false), "/srv/volumes/w");
    assert_eq!(bind_source("\\\\?", true), "\\\\?");
}

#[test]
fn container_definition() {
    let spec = ContainerSpec::new(ID, "openjdk:17", 25600, "/srv/volumes/w");
    assert_eq!(spec.name, NAME);
    assert_eq!(spec.image, "openjdk:17");
    assert_eq!(spec.cmd, vec!["sh", "-c", "cd /data && sh provision.sh"]);
    assert_eq!(spec.container_port, "25565/tcp");
    assert_eq!(spec.host_ip, "127.0.0.1");
    assert_eq!(spec.host_port, "25600");
    assert_eq!(spec.bind, "/srv/volumes/w/:/data");
    assert_eq!(spec.volume, "/data");
    assert!(spec.open_stdin);
}

#[test]
fn fresh_plan_steps() {
    let jar = ServerJarInfo { url: "https://example.test/s.jar".to_string(), java_version: 17 };
    let steps = fresh_plan(ID, &jar, "java -jar server.jar\r\n");
    assert_eq!(steps.len(), 7);
    assert!(matches!(&steps[0], ProvisionStep::PullImage { image } if image == "openjdk:17"));
    assert!(matches!(&steps[1], ProvisionStep::EnsureDir { path } if path == "volumes"));
    assert!(matches!(&steps[2], ProvisionStep::EnsureDir { path } if path == DIR));
    assert!(matches!(&steps[3], ProvisionStep::CreateVolume { name } if name == NAME));
    match &steps[4] {
        ProvisionStep::WriteFile { path, contents } => {
            assert_eq!(path, &format!("{}/provision.sh", DIR));
            assert_eq!(contents, "JAR_URL=https://example.test/s.jar\njava -jar server.jar\n");
        }
        _ => panic!("expected the script to be written"),
    }
    assert!(matches!(&steps[5], ProvisionStep::CreateContainer { dir } if dir == DIR));
    assert!(matches!(&steps[6], ProvisionStep::StartContainer { name } if name == NAME));
}

#[test]
fn restore_plan_keeps_volume() {
    let steps = restore_plan(ID, "openjdk:21");
    assert_eq!(steps.len(), 5);
    assert!(matches!(&steps[0], ProvisionStep::PullImage { image } if image == "openjdk:21"));
    assert!(matches!(&steps[1], ProvisionStep::EnsureDir { path } if path == "volumes"));
    assert!(matches!(&steps[2], ProvisionStep::EnsureDir { path } if path == DIR));
    assert!(matches!(&steps[3], ProvisionStep::CreateContainer { dir } if dir == DIR));
    assert!(matches!(&steps[4], ProvisionStep::StartContainer { name } if name == NAME));
    assert!(!steps.iter().any(|s| matches!(s, ProvisionStep::CreateVolume { .. } | ProvisionStep::WriteFile { .. })));
}
