use lucien::graphics::linear::{Vec2, Vec3};
use lucien::graphics::primitives::FlatMesh;
use lucien::logger::{configure, Destination, Level, LogConfig, LoggerConfigTrait, Source};
use lucien::render::pipelines::{RenderMode, RenderTarget};
use lucien::render::vertex::Vertex;
use lucien::resources::loader::{init_loader, DefaultLoader};

#[test]
fn logger_starts_with_debug_on_standard_error() {
    let config = LogConfig::new();
    assert_eq!(config.level, Level::Debug);
    assert_eq!(config.destination, Destination::Stderr);
    assert_eq!(config.source, Source::Off);
}

#[test]
fn logger_setters_change_one_setting_each() {
    let mut config = LogConfig::new();
    config.level(Level::Error);
    assert_eq!(
        config,
        LogConfig { level: Level::Error, destination: Destination::Stderr, source: Source::Off }
    );
    config.destination(Destination::Stdout);
    assert_eq!(
        config,
        LogConfig { level: Level::Error, destination: Destination::Stdout, source: Source::Off }
    );
    config.source(Source::File);
    assert_eq!(
        config,
        LogConfig { level: Level::Error, destination: Destination::Stdout, source: Source::File }
    );
}

#[test]
fn logger_setters_chain() {
    let mut config = LogConfig::new();
    config.level(Level::Trace).source(Source::Module).destination(Destination::Stdout).level(Level::Warn);
    assert_eq!(
        config,
        LogConfig { level: Level::Warn, destination: Destination::Stdout, source: Source::Module }
    );
    assert_eq!(
        configure(Level::Info, Destination::Stderr, Source::File),
        LogConfig { level: Level::Info, destination: Destination::Stderr, source: Source::File }
    );
}

#[test]
fn loader_keeps_its_base_directory() {
    let loader = DefaultLoader::new(String::from("assets/models"));
    assert_eq!(loader.base_dir(), "assets/models");
    let loader = init_loader(String::from("."));
    assert_eq!(loader.base_dir(), ".");
}

#[test]
fn render_choices_are_distinct() {
    assert_ne!(RenderMode::Default, RenderMode::WireFrame);
    assert_ne!(RenderTarget::SwapChain, RenderTarget::RenderTexture);
}

#[test]
fn vertex_buffer_takes_three_coordinates_per_vertex() {
    let mesh = FlatMesh {
        positions: vec![1, 2, 3, 4, 5, 6, 7],
        normals: vec![10, 20, 30, 40, 50, 60],
        texcoords: vec![],
        indices: vec![0, 1],
        num_face_indices: vec![],
        material_id: None,
    };
    assert_eq!(
        Vertex::from_tobj(&mesh),
        vec![
            Vertex {
                position: Vec3::new(1, 2, 3),
                normal: Vec3::new(10, 20, 30),
                tex_coord: Vec2::new(0, 0),
            },
            Vertex {
                position: Vec3::new(4, 5, 6),
                normal: Vec3::new(40, 50, 60),
                tex_coord: Vec2::new(0, 0),
            },
        ]
    );
    let bare = FlatMesh { normals: vec![], texcoords: vec![7, 8, 9, 10], ..mesh };
    let vertices = Vertex::from_tobj(&bare);
    assert_eq!(vertices[1].normal, Vec3::new(0, 0, 0));
    assert_eq!(vertices[1].tex_coord, Vec2::new(9, 10));
}
