use ash::vk::Handle;
use vkrender::devicememory::{
    search_physical_device_memory_type, MAX_MEMORY_TYPES, MEMORY_PROPERTY_DEVICE_LOCAL,
    MEMORY_PROPERTY_HOST_COHERENT, MEMORY_PROPERTY_HOST_VISIBLE,
};
use vkrender::lowlevelrenderer::{
    handle_events, MyFrameScheduler, WindowEvent, FRAME_COUNT, KEYCODE_ESCAPE,
};
use vkrender::renderingcontext::{lookup_queue_family_index, pick_up_one_gpu, QUEUE_GRAPHICS};
use vkrender::surface::{
    Extent2D, MySurface, SurfaceCapabilities, SurfaceFormat, COLOR_SPACE_SRGB_NONLINEAR,
    EXTENT_DECIDED_BY_SWAPCHAIN, FORMAT_B8G8R8A8_UNORM,
};
use vkrender::swapchain::{MySwapchain, PRESENT_MODE_FIFO, PRESENT_MODE_MAILBOX};
use vkrender::vertexbuffer::MyIndexBuffer;
use vkrender::{MyId, MyIdGenerator};

// ---- identifiers ----

#[test]
fn ids_start_at_one_and_count_up() {
    let mut generator = MyIdGenerator::new();
    let a = MyId::new(&mut generator);
    let b = MyId::new(&mut generator);
    let c = MyId::new(&mut generator);
    assert_eq!(a.value_of(), 1);
    assert_eq!(b.value_of(), 2);
    assert_eq!(c.value_of(), 3);
}

#[test]
fn make_new_id_advances_the_generator() {
    let mut generator = MyIdGenerator::new();
    assert_eq!(MyId::make_new_id(&mut generator), 1);
    assert_eq!(MyId::make_new_id(&mut generator), 2);
    assert_eq!(MyId::new(&mut generator).value_of(), 3);
}

#[test]
fn ids_are_never_handed_out_twice() {
    let mut generator = MyIdGenerator::new();
    let ids: Vec<usize> = (0..100).map(|_| MyId::new(&mut generator).value_of()).collect();
    for i in 0..ids.len() {
        for j in (i + 1)..ids.len() {
            assert_ne!(ids[i], ids[j]);
            assert!(ids[i] < ids[j]);
        }
    }
}

#[test]
fn fresh_generator_can_issue() {
    let generator = MyIdGenerator::new();
    assert!(generator.can_issue());
}

// ---- memory types ----

fn memory_table(entries: &[(usize, u32)]) -> [u32; 32] {
    let mut table = [0u32; 32];
    for &(index, flags) in entries {
        table[index] = flags;
    }
    table
}

#[test]
fn memory_constants_match_ash() {
    assert_eq!(MEMORY_PROPERTY_DEVICE_LOCAL, ash::vk::MemoryPropertyFlags::DEVICE_LOCAL.as_raw());
    assert_eq!(MEMORY_PROPERTY_HOST_VISIBLE, ash::vk::MemoryPropertyFlags::HOST_VISIBLE.as_raw());
    assert_eq!(MEMORY_PROPERTY_HOST_COHERENT, ash::vk::MemoryPropertyFlags::HOST_COHERENT.as_raw());
    assert_eq!(MAX_MEMORY_TYPES, ash::vk::MAX_MEMORY_TYPES);
}

#[test]
fn memory_type_first_suitable_is_chosen() {
    let host = MEMORY_PROPERTY_HOST_VISIBLE | MEMORY_PROPERTY_HOST_COHERENT;
    let table = memory_table(&[(0, MEMORY_PROPERTY_DEVICE_LOCAL), (1, host), (2, host | 8)]);
    assert_eq!(search_physical_device_memory_type(0b110, &table, host), Ok(1));
    // type 1 is not allowed for this resource
    assert_eq!(search_physical_device_memory_type(0b101, &table, host), Ok(2));
    assert_eq!(
        search_physical_device_memory_type(0b111, &table, MEMORY_PROPERTY_DEVICE_LOCAL),
        Ok(0)
    );
}

#[test]
fn memory_type_needs_every_wanted_property() {
    // type 0 has only HOST_VISIBLE: it lacks HOST_COHERENT
    let table = memory_table(&[(0, MEMORY_PROPERTY_HOST_VISIBLE), (3, 0b111)]);
    let wanted = MEMORY_PROPERTY_HOST_VISIBLE | MEMORY_PROPERTY_HOST_COHERENT;
    assert_eq!(search_physical_device_memory_type(0b1001, &table, wanted), Ok(3));
}

#[test]
fn memory_type_last_entry_is_reachable() {
    let table = memory_table(&[(31, MEMORY_PROPERTY_DEVICE_LOCAL)]);
    assert_eq!(
        search_physical_device_memory_type(0x8000_0000, &table, MEMORY_PROPERTY_DEVICE_LOCAL),
        Ok(31)
    );
}

#[test]
fn memory_type_not_found() {
    let table = memory_table(&[(0, MEMORY_PROPERTY_HOST_VISIBLE)]);
    assert_eq!(
        search_physical_device_memory_type(0b1, &table, MEMORY_PROPERTY_DEVICE_LOCAL),
        Err("Cannot find device memory type")
    );
    assert_eq!(
        search_physical_device_memory_type(0, &table, 0),
        Err("Cannot find device memory type")
    );
}

// ---- queue families and devices ----

#[test]
fn queue_constant_matches_ash() {
    assert_eq!(QUEUE_GRAPHICS, ash::vk::QueueFlags::GRAPHICS.as_raw());
}

#[test]
fn first_graphics_queue_family_is_chosen() {
    let compute = ash::vk::QueueFlags::COMPUTE.as_raw();
    let transfer = ash::vk::QueueFlags::TRANSFER.as_raw();
    assert_eq!(lookup_queue_family_index(&vec![compute, transfer | 1, 1]), Ok(1));
    assert_eq!(lookup_queue_family_index(&vec![0b111]), Ok(0));
}

#[test]
fn no_graphics_queue_family() {
    assert_eq!(lookup_queue_family_index(&vec![2, 4, 8]), Err("Queue family not found"));
    assert_eq!(lookup_queue_family_index(&vec![]), Err("Queue family not found"));
}

#[test]
fn first_enumerated_gpu_is_picked() {
    let found: Result<Vec<u64>, i32> = Ok(vec![7, 8]);
    assert_eq!(pick_up_one_gpu(&found), Some(7));
    let none: Result<Vec<u64>, i32> = Ok(vec![]);
    assert_eq!(pick_up_one_gpu(&none), None);
    let failed: Result<Vec<u64>, i32> = Err(-3);
    assert_eq!(pick_up_one_gpu(&failed), None);
}

// ---- surface ----

fn capabilities(min: u32, max: u32, current: Extent2D) -> SurfaceCapabilities {
    SurfaceCapabilities {
        min_image_count: min,
        max_image_count: max,
        current_extent: current,
        min_image_extent: Extent2D { width: 100, height: 50 },
        max_image_extent: Extent2D { width: 1000, height: 500 },
        current_transform: 1,
    }
}

fn bgra_srgb() -> SurfaceFormat {
    SurfaceFormat { format: FORMAT_B8G8R8A8_UNORM, color_space: COLOR_SPACE_SRGB_NONLINEAR }
}

#[test]
fn surface_constants_match_ash() {
    assert_eq!(FORMAT_B8G8R8A8_UNORM, ash::vk::Format::B8G8R8A8_UNORM.as_raw());
    assert_eq!(COLOR_SPACE_SRGB_NONLINEAR, ash::vk::ColorSpaceKHR::SRGB_NONLINEAR.as_raw());
    assert_eq!(EXTENT_DECIDED_BY_SWAPCHAIN, !(0 as u32));
}

#[test]
fn search_format_finds_bgra_srgb() {
    let formats = vec![
        SurfaceFormat { format: 50, color_space: COLOR_SPACE_SRGB_NONLINEAR },
        SurfaceFormat { format: FORMAT_B8G8R8A8_UNORM, color_space: 1 },
        bgra_srgb(),
    ];
    assert_eq!(MySurface::search_format(&formats), Ok(bgra_srgb()));
}

#[test]
fn search_format_fails_without_bgra_srgb() {
    let formats = vec![SurfaceFormat { format: FORMAT_B8G8R8A8_UNORM, color_space: 1 }];
    assert_eq!(MySurface::search_format(&formats), Err("Cannot find surface format"));
    assert_eq!(MySurface::search_format(&vec![]), Err("Cannot find surface format"));
}

#[test]
fn surface_without_presentation_is_refused() {
    let mut dims = Extent2D { width: 1280, height: 720 };
    let caps = capabilities(2, 3, Extent2D { width: 640, height: 480 });
    let r = MySurface::new(
        ash::vk::SurfaceKHR::from_raw(9),
        false,
        caps,
        &vec![bgra_srgb()],
        vec![PRESENT_MODE_FIFO],
        &mut dims,
    );
    assert_eq!(r.err(), Some("Presentation not supported !"));
    assert_eq!(dims, Extent2D { width: 1280, height: 720 });
}

#[test]
fn surface_takes_its_own_extent() {
    let mut dims = Extent2D { width: 1280, height: 720 };
    let caps = capabilities(2, 3, Extent2D { width: 640, height: 480 });
    let surface = MySurface::new(
        ash::vk::SurfaceKHR::from_raw(9),
        true,
        caps,
        &vec![SurfaceFormat { format: 1, color_space: 0 }, bgra_srgb()],
        vec![PRESENT_MODE_FIFO, PRESENT_MODE_MAILBOX],
        &mut dims,
    )
    .unwrap();
    assert_eq!(dims, Extent2D { width: 640, height: 480 });
    assert_eq!(surface.inner.as_raw(), 9);
    assert_eq!(surface.capabilities, caps);
    assert_eq!(surface.format, bgra_srgb());
    assert_eq!(surface.image_count, 3);
    assert_eq!(surface.v_present_modes, vec![PRESENT_MODE_FIFO, PRESENT_MODE_MAILBOX]);
}

#[test]
fn surface_clamps_window_dimensions() {
    let undecided = Extent2D { width: EXTENT_DECIDED_BY_SWAPCHAIN, height: 0 };
    let mut dims = Extent2D { width: 1280, height: 20 };
    let caps = capabilities(2, 0, undecided);
    let surface = MySurface::new(
        ash::vk::SurfaceKHR::from_raw(1),
        true,
        caps,
        &vec![bgra_srgb()],
        vec![],
        &mut dims,
    )
    .unwrap();
    assert_eq!(dims, Extent2D { width: 1000, height: 50 });
    assert_eq!(surface.image_count, 3);

    let mut inside = Extent2D { width: 300, height: 200 };
    MySurface::new(
        ash::vk::SurfaceKHR::from_raw(1),
        true,
        caps,
        &vec![bgra_srgb()],
        vec![],
        &mut inside,
    )
    .unwrap();
    assert_eq!(inside, Extent2D { width: 300, height: 200 });
}

#[test]
fn surface_image_count_respects_maximum() {
    let current = Extent2D { width: 10, height: 10 };
    let mut dims = Extent2D { width: 1, height: 1 };
    let at_max = MySurface::new(
        ash::vk::SurfaceKHR::from_raw(1),
        true,
        capabilities(4, 4, current),
        &vec![bgra_srgb()],
        vec![],
        &mut dims,
    )
    .unwrap();
    assert_eq!(at_max.image_count, 4);
    let unbounded = MySurface::new(
        ash::vk::SurfaceKHR::from_raw(1),
        true,
        capabilities(4, 0, current),
        &vec![bgra_srgb()],
        vec![],
        &mut dims,
    )
    .unwrap();
    assert_eq!(unbounded.image_count, 5);
}

// ---- swapchain ----

#[test]
fn present_mode_constants_match_ash() {
    assert_eq!(PRESENT_MODE_MAILBOX, ash::vk::PresentModeKHR::MAILBOX.as_raw());
    assert_eq!(PRESENT_MODE_FIFO, ash::vk::PresentModeKHR::FIFO.as_raw());
}

#[test]
fn mailbox_is_preferred() {
    let immediate = ash::vk::PresentModeKHR::IMMEDIATE.as_raw();
    assert_eq!(
        MySwapchain::choose_swapchain_present_mode(&vec![immediate, PRESENT_MODE_MAILBOX]),
        PRESENT_MODE_MAILBOX
    );
}

#[test]
fn fifo_is_the_fallback() {
    let immediate = ash::vk::PresentModeKHR::IMMEDIATE.as_raw();
    assert_eq!(MySwapchain::choose_swapchain_present_mode(&vec![immediate]), PRESENT_MODE_FIFO);
    assert_eq!(MySwapchain::choose_swapchain_present_mode(&vec![]), PRESENT_MODE_FIFO);
}

// ---- frame pacing ----

#[test]
fn scheduler_starts_at_first_slot_with_unguarded_images() {
    let s = MyFrameScheduler::new(3);
    assert_eq!(s.current_frame_index(), 0);
    assert_eq!(s.image_count(), 3);
}

#[test]
fn frame_slots_go_round_robin() {
    let mut s = MyFrameScheduler::new(2);
    let mut seen = Vec::new();
    for _ in 0..5 {
        seen.push(s.current_frame_index());
        s.advance();
    }
    assert_eq!(seen, vec![0, 1, 0, 1, 0]);
    assert_eq!(FRAME_COUNT, 2);
}

#[test]
fn reused_image_waits_for_its_last_submission() {
    let mut s = MyFrameScheduler::new(3);
    // iteration 0, slot 0: image 2 never used before
    let p = s.on_image_acquired(2);
    assert_eq!((p.image_index, p.frame_index, p.wait_for_image_fence), (2, 0, None));
    s.advance();
    // iteration 1, slot 1: image 0
    let p = s.on_image_acquired(0);
    assert_eq!((p.image_index, p.frame_index, p.wait_for_image_fence), (0, 1, None));
    s.advance();
    // iteration 2, slot 0: image 2 again, last rendered in slot 0
    let p = s.on_image_acquired(2);
    assert_eq!((p.image_index, p.frame_index, p.wait_for_image_fence), (2, 0, Some(0)));
    s.advance();
    // iteration 3, slot 1: image 2 again, last rendered in slot 0
    let p = s.on_image_acquired(2);
    assert_eq!((p.image_index, p.frame_index, p.wait_for_image_fence), (2, 1, Some(0)));
    s.advance();
    // iteration 4, slot 0: image 0, last rendered in slot 1
    let p = s.on_image_acquired(0);
    assert_eq!(p.wait_for_image_fence, Some(1));
    assert_eq!(p.frame_index, 0);
}

// ---- window events ----

#[test]
fn quit_and_escape_stop_the_loop() {
    assert!(!handle_events(Some(WindowEvent::Quit)));
    assert!(!handle_events(Some(WindowEvent::KeyDown { keycode: Some(KEYCODE_ESCAPE) })));
}

#[test]
fn other_events_keep_the_loop_going() {
    assert!(handle_events(None));
    assert!(handle_events(Some(WindowEvent::Other)));
    assert!(handle_events(Some(WindowEvent::KeyDown { keycode: Some(97) })));
    assert!(handle_events(Some(WindowEvent::KeyDown { keycode: None })));
}

// ---- index buffer ----

#[test]
fn index_buffer_holds_two_bytes_per_index() {
    assert_eq!(MyIndexBuffer::number_of_bytes(&vec![0u16, 1, 2]), 6);
    assert_eq!(MyIndexBuffer::number_of_bytes(&vec![7u16]), 2);
}

// ---- shader code ----

use vkrender::shader::{decode_spirv, SPIRV_MAGIC_NUMBER};

#[test]
fn spirv_little_endian_words() {
    let bytes = vec![0x03u8, 0x02, 0x23, 0x07, 0x01, 0x00, 0x00, 0x00, 0xff, 0x00, 0x00, 0x10];
    assert_eq!(decode_spirv(&bytes), Some(vec![SPIRV_MAGIC_NUMBER, 1, 0x1000_00ff]));
}

#[test]
fn spirv_big_endian_words() {
    let bytes = vec![0x07u8, 0x23, 0x02, 0x03, 0x00, 0x00, 0x00, 0x01, 0x10, 0x00, 0x00, 0xff];
    assert_eq!(decode_spirv(&bytes), Some(vec![SPIRV_MAGIC_NUMBER, 1, 0x1000_00ff]));
}

#[test]
fn spirv_rejects_bad_input() {
    // length not a multiple of four
    assert_eq!(decode_spirv(&vec![0x03u8, 0x02, 0x23, 0x07, 0x01]), None);
    // empty
    assert_eq!(decode_spirv(&vec![]), None);
    // no magic number
    assert_eq!(decode_spirv(&vec![0u8, 0, 0, 0, 1, 2, 3, 4]), None);
}

// ---- buffer sizes ----

use vkrender::stagingbuffer::staging_bytes_count;
use vkrender::vertexbuffer::vertex_bytes_count;

#[test]
fn staging_buffer_holds_every_element() {
    let vertices: Vec<[f32; 3]> = vec![[0.0; 3], [1.0; 3]];
    assert_eq!(staging_bytes_count(&vertices), 24);
    assert_eq!(staging_bytes_count(&vec![1u16, 2, 3]), 6);
}

#[test]
fn vertex_buffer_holds_every_vertex() {
    let vertices: Vec<[f32; 3]> = vec![[0.0; 3], [1.0; 3], [2.0; 3]];
    assert_eq!(vertex_bytes_count(&vertices), 36);
    let none: Vec<[f32; 3]> = vec![];
    assert_eq!(vertex_bytes_count(&none), 0);
}
