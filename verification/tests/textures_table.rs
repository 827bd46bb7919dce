use motoro::textures::texture::Texture;
use motoro::vulkan::variables::sampler::Sampler2D;
use motoro::vulkan::variables::textures::{TableFull, Textures, MAX_DESCRIPTORS};
use motoro::vulkan::variables::variable::ImageWrite;

fn texture(image: u64) -> Texture {
    Texture {
        image,
        memory: image + 1000,
        view: image + 2000,
        size: [8, 8],
    }
}

#[test]
fn create_is_empty_with_256_slots() {
    let table = Textures::create(1, 0, 11, 22);
    assert_eq!(table.slot(), 1);
    assert_eq!(table.binding(), 0);
    assert_eq!(table.layout(), 11);
    assert_eq!(table.descriptor(), 22);
    assert_eq!(table.len(), 0);
    assert_eq!(table.capacity(), 256);
    assert_eq!(MAX_DESCRIPTORS, 256);
}

#[test]
fn first_store_takes_a_slot_and_owes_a_write() {
    let mut table = Textures::create(1, 3, 11, 22);
    let stored = table.store(texture(5), 99).unwrap();
    assert_eq!(stored.index, 0);
    assert_eq!(
        stored.write,
        Some(ImageWrite {
            dst_set: 22,
            dst_binding: 3,
            dst_array_element: 0,
            image_view: 2005,
            sampler: 99
        })
    );
    let stored = table.store(texture(6), 99).unwrap();
    assert_eq!(stored.index, 1);
    assert_eq!(stored.write.unwrap().dst_array_element, 1);
    assert_eq!(table.len(), 2);
}

#[test]
fn storing_the_same_image_twice_gives_the_same_slot() {
    let mut table = Textures::create(1, 0, 11, 22);
    table.store(texture(5), 99).unwrap();
    let first = table.store(texture(6), 99).unwrap();
    let mut same_image = texture(6);
    same_image.view = 1;
    same_image.size = [1, 1];
    let second = table.store(same_image, 98).unwrap();
    assert_eq!(first.index, 1);
    assert_eq!(second.index, 1);
    assert!(first.write.is_some());
    assert!(second.write.is_none());
    assert_eq!(table.len(), 2);
}

#[test]
fn the_257th_distinct_texture_is_rejected() {
    let mut table = Textures::create(1, 0, 11, 22);
    for image in 0..256u64 {
        let stored = table.store(texture(image + 1), 99).unwrap();
        assert_eq!(stored.index as u64, image);
        assert!(stored.write.is_some());
    }
    assert_eq!(table.len(), 256);
    let rejected = table.store(texture(1000), 99);
    assert_eq!(rejected.unwrap_err(), TableFull { capacity: 256 });
    assert_eq!(table.len(), 256);
    let known = table.store(texture(200), 99).unwrap();
    assert_eq!(known.index, 199);
    assert!(known.write.is_none());
}

#[test]
fn bindings_ask_for_the_whole_array() {
    let bindings = Textures::bindings(2);
    assert_eq!(bindings.len(), 1);
    assert_eq!(bindings[0].binding, 2);
    assert_eq!(bindings[0].descriptor_type, 1);
    assert_eq!(bindings[0].stages, 0x7FFF_FFFF);
    assert_eq!(bindings[0].count, 256);
}

#[test]
fn sampler2d_is_a_table_at_binding_zero() {
    let mut sampler = Sampler2D::create(11, 22);
    assert_eq!(sampler.layout(), 11);
    assert_eq!(sampler.descriptor(), 22);
    let first = sampler.store(texture(5), 99).unwrap();
    assert_eq!(first.index, 0);
    assert_eq!(
        first.write,
        Some(ImageWrite {
            dst_set: 22,
            dst_binding: 0,
            dst_array_element: 0,
            image_view: 2005,
            sampler: 99
        })
    );
    let again = sampler.store(texture(5), 99).unwrap();
    assert_eq!(again.index, 0);
    assert!(again.write.is_none());
    for image in 0..255u64 {
        sampler.store(texture(image + 100), 99).unwrap();
    }
    assert!(sampler.store(texture(4000), 99).is_err());
}
