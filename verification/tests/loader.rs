use motoro::textures::loader::{
    loaded, needs_new_handle, DynamicUpdate, TextureLoaderRequest, TextureLoaderResponse, TexturesManager,
};
use motoro::textures::texture::{Texture, TextureError};

fn texture(image: u64) -> Texture {
    Texture {
        image,
        memory: image + 1000,
        view: image + 2000,
        size: [8, 8],
    }
}

fn manager() -> TexturesManager {
    TexturesManager::new(texture(1), texture(2), 2)
}

#[test]
fn sentinel_paths_answer_at_once() {
    let mut manager = manager();
    assert_eq!(manager.get_texture(Texture::FALLBACK), texture(1));
    assert_eq!(manager.get_texture(Texture::BLANK), texture(2));
    assert_eq!(manager.get_texture("<fallback>"), texture(1));
    assert_eq!(manager.get_texture("<blank>"), texture(2));
    assert_eq!(manager.len(), 0);
    assert!(manager.take_read_jobs().is_empty());
    assert_eq!(manager.fallback(), texture(1));
    assert_eq!(manager.blank(), texture(2));
}

#[test]
fn unseen_path_gets_the_fallback_and_one_read_job() {
    let mut manager = manager();
    assert_eq!(manager.get_texture("a.png"), texture(1));
    assert_eq!(manager.get_texture("a.png"), texture(1));
    assert_eq!(manager.get_texture("a.png"), texture(1));
    let jobs = manager.take_read_jobs();
    assert_eq!(jobs.len(), 1);
    assert_eq!(jobs[0].path, "a.png");
    assert_eq!(jobs[0].handle, texture(1));
    assert_eq!(jobs[0].reader, 0);
    let record = manager.record("a.png").unwrap();
    assert_eq!(record.current, texture(1));
    assert_eq!(record.loading, None);
    assert_eq!(manager.get_texture("a.png"), texture(1));
    assert!(manager.take_read_jobs().is_empty());
}

#[test]
fn loaded_texture_replaces_the_fallback() {
    let mut manager = manager();
    assert_eq!(manager.get_texture("a.png"), texture(1));
    manager.update(vec![TextureLoaderResponse::Loaded(
        "a.png".to_string(),
        texture(7),
    )]);
    assert_eq!(manager.get_texture("a.png"), texture(7));
    assert_eq!(manager.get_texture("a.png"), texture(7));
    assert_eq!(manager.take_read_jobs().len(), 1);
    let record = manager.record("a.png").unwrap();
    assert_eq!(record.current, texture(7));
    assert_eq!(record.loading, Some(texture(1)));
}

#[test]
fn readers_take_turns() {
    let mut manager = manager();
    manager.get_texture("a.png");
    manager.get_texture("b.png");
    manager.get_texture("c.png");
    let readers: Vec<usize> = manager
        .take_read_jobs()
        .iter()
        .map(|job| job.reader)
        .collect();
    assert_eq!(readers, vec![0, 1, 0]);
    let mut three = TexturesManager::new(texture(1), texture(2), 3);
    for path in ["a", "b", "c", "d"] {
        three.get_texture(path);
    }
    let readers: Vec<usize> = three
        .take_read_jobs()
        .iter()
        .map(|job| job.reader)
        .collect();
    assert_eq!(readers, vec![0, 1, 2, 0]);
}

#[test]
fn answer_for_an_unknown_path_is_dropped() {
    let mut manager = manager();
    manager.update(vec![TextureLoaderResponse::Loaded(
        "ghost.png".to_string(),
        texture(7),
    )]);
    assert_eq!(manager.len(), 0);
    assert!(manager.record("ghost.png").is_none());
}

#[test]
fn answers_are_taken_in_order() {
    let mut manager = manager();
    manager.get_texture("a.png");
    manager.update(vec![
        TextureLoaderResponse::Loaded("a.png".to_string(), texture(7)),
        TextureLoaderResponse::Loaded("a.png".to_string(), texture(8)),
    ]);
    let record = manager.record("a.png").unwrap();
    assert_eq!(record.current, texture(8));
    assert_eq!(record.loading, Some(texture(7)));
}

#[test]
fn dynamic_texture_is_numbered_and_loaded_at_once() {
    let mut manager = manager();
    manager.get_texture("a.png");
    let path = manager.create_dynamic_texture(2, 1, vec![1, 2, 3, 4, 5, 6, 7, 8]);
    assert_eq!(path, "memory:1");
    let loads = manager.take_load_jobs();
    assert_eq!(loads.len(), 1);
    match &loads[0] {
        TextureLoaderRequest::Load(path, handle, width, height, data) => {
            assert_eq!(path, "memory:1");
            assert_eq!(*handle, texture(1));
            assert_eq!((*width, *height), (2, 1));
            assert_eq!(data, &vec![1, 2, 3, 4, 5, 6, 7, 8]);
        }
    }
    assert!(needs_new_handle(&loads[0], texture(1)));
    assert!(!needs_new_handle(&loads[0], texture(9)));
    assert_eq!(manager.get_texture("memory:1"), texture(1));
    assert_eq!(manager.take_read_jobs().len(), 1);
    assert_eq!(manager.len(), 2);
}

#[test]
fn dynamic_update_is_refused_while_a_load_is_on_its_way() {
    let mut manager = manager();
    let path = manager.create_dynamic_texture(1, 1, vec![0, 0, 0, 0]);
    assert_eq!(path, "memory:0");
    assert_eq!(
        manager.update_dynamic_texture(&path, 1, 1, vec![1, 1, 1, 1]),
        DynamicUpdate::InProgress
    );
    assert_eq!(
        manager.update_dynamic_texture("memory:9", 1, 1, vec![1, 1, 1, 1]),
        DynamicUpdate::NotFound
    );
    manager.update(vec![TextureLoaderResponse::Loaded(path.clone(), texture(7))]);
    assert_eq!(manager.get_texture(&path), texture(7));
    assert_eq!(
        manager.update_dynamic_texture(&path, 1, 1, vec![1, 1, 1, 1]),
        DynamicUpdate::Queued
    );
    let loads = manager.take_load_jobs();
    assert_eq!(loads.len(), 2);
    match &loads[1] {
        TextureLoaderRequest::Load(_, handle, _, _, data) => {
            assert_eq!(*handle, texture(1));
            assert_eq!(data, &vec![1, 1, 1, 1]);
        }
    }
    assert!(manager.take_read_jobs().is_empty());
}

#[test]
fn texture_error_keeps_its_message() {
    let error = TextureError::new("png has no header");
    assert_eq!(error.message(), "png has no header");
    assert_eq!(error.0, "png has no header");
}

#[test]
fn a_single_reader_gets_every_job() {
    let mut manager = TexturesManager::new(texture(1), texture(2), 1);
    for path in ["a", "b", "c"] {
        assert_eq!(manager.get_texture(path), texture(1));
    }
    let jobs = manager.take_read_jobs();
    assert_eq!(jobs.len(), 3);
    assert!(jobs.iter().all(|job| job.reader == 0));
    assert_eq!(
        jobs.iter().map(|job| job.path.as_str()).collect::<Vec<_>>(),
        vec!["a", "b", "c"]
    );
}

#[test]
fn a_path_that_only_looks_dynamic_is_read_from_disk() {
    let mut manager = manager();
    assert_eq!(manager.get_texture("memory"), texture(1));
    assert_eq!(manager.get_texture("Memory:0"), texture(1));
    assert_eq!(manager.get_texture(" memory:0"), texture(1));
    assert_eq!(manager.take_read_jobs().len(), 3);
    assert_eq!(manager.get_texture("memory:"), texture(1));
    assert_eq!(manager.get_texture("memory:7"), texture(1));
    assert!(manager.take_read_jobs().is_empty());
    assert_eq!(manager.len(), 5);
}

#[test]
fn the_loader_answers_with_the_texture_it_filled() {
    let request = || TextureLoaderRequest::Load("a.png".to_string(), texture(5), 2, 2, vec![0; 16]);
    match loaded(request(), texture(9), texture(1)) {
        TextureLoaderResponse::Loaded(path, handle) => {
            assert_eq!(path, "a.png");
            assert_eq!(handle, texture(5));
        }
    }
    match loaded(request(), texture(9), texture(5)) {
        TextureLoaderResponse::Loaded(path, handle) => {
            assert_eq!(path, "a.png");
            assert_eq!(handle, texture(9));
        }
    }
}

#[test]
fn records_are_found_by_their_paths_whatever_came_between() {
    let fallback = Texture {
        image: 1,
        memory: 1,
        view: 1,
        size: [1, 1],
    };
    let blank = Texture {
        image: 2,
        memory: 2,
        view: 2,
        size: [1, 1],
    };
    let mut manager = TexturesManager::new(fallback, blank, 2);
    for name in ["a.png", "b.png", "c.png", "a.png", "b.png"] {
        assert_eq!(manager.get_texture(name), fallback);
    }
    assert_eq!(manager.len(), 3);
    assert_eq!(manager.take_read_jobs().len(), 3);
    assert!(manager.record("a.png").is_some());
    assert!(manager.record("d.png").is_none());
    let made = manager.create_dynamic_texture(1, 1, vec![0, 0, 0, 0]);
    assert_eq!(made, "memory:3");
    assert_eq!(manager.len(), 4);
}
