use vulpix::errors::ImageError;
use vulpix::format::ImgFormat;
use vulpix::settings::{ImgSource, Server, Settings, ENV};

fn settings() -> Settings {
    Settings {
        server: Server { port: 8080 },
        img_sources: vec![
            ImgSource {
                path: "cats".to_string(),
                bucket: "cat-sources".to_string(),
                cache_bucket: "cat-cache".to_string(),
            },
            ImgSource {
                path: "dogs".to_string(),
                bucket: "dog-sources".to_string(),
                cache_bucket: "dog-cache".to_string(),
            },
            ImgSource {
                path: "cats".to_string(),
                bucket: "other".to_string(),
                cache_bucket: "other-cache".to_string(),
            },
        ],
        env: ENV::Local,
        secret_salt: None,
    }
}

#[test]
fn environments_by_name() {
    assert_eq!(ENV::from("Local"), ENV::Local);
    assert_eq!(ENV::from("Production"), ENV::Production);
    assert_eq!(ENV::from("production"), ENV::Local);
    assert_eq!(ENV::from(""), ENV::Local);
    assert_eq!(ENV::from("Staging"), ENV::Local);
}

#[test]
fn environments_have_their_names() {
    assert_eq!(ENV::Local.name(), "Local");
    assert_eq!(ENV::Production.name(), "Production");
    assert_eq!(ENV::from(ENV::Production.name()), ENV::Production);
}

#[test]
fn routes_take_the_image_key_after_the_prefix() {
    let s = settings();
    assert_eq!(s.img_sources[0].route(), "/cats/*img_key");
    assert_eq!(s.img_sources[1].route(), "/dogs/*img_key");
}

#[test]
fn configuration_files() {
    assert_eq!(Settings::default_file(), "./config/Default.toml");
    assert_eq!(Settings::env_file("Local"), "./config/Local");
    assert_eq!(Settings::env_file("Production"), "./config/Production");
}

#[test]
fn formats_have_their_names_and_content_types() {
    assert_eq!(ImgFormat::Png.name(), "png");
    assert_eq!(ImgFormat::Jpeg.name(), "jpeg");
    assert_eq!(ImgFormat::Png.content_type(), "image/png");
    assert_eq!(ImgFormat::Jpeg.content_type(), "image/jpeg");
}

#[test]
fn errors_have_their_messages() {
    assert_eq!(
        ImageError::StorageReadError("no such key".to_string()).message(),
        "img read error: no such key"
    );
    assert_eq!(
        ImageError::StorageWriteError("denied".to_string()).message(),
        "img write error: denied"
    );
    assert_eq!(
        ImageError::StreamDecodeError("cut short".to_string()).message(),
        "stream error: cut short"
    );
    assert_eq!(
        ImageError::TransformFailed("no decode delegate".to_string()).message(),
        "magickwand error: no decode delegate"
    );
    assert_eq!(ImageError::SignatureInvalid.message(), "signature invalid");
    assert_eq!(ImageError::Expired.message(), "url expired");
}
