use lightcache::error::ExtractError;
use lightcache::format::PixelFormat;
use lightcache::layout::{plan, ContainerShape, TextureSize, CUBE_FACES};

fn size(width: i32, height: i32, depth: i32) -> TextureSize {
    TextureSize { width, height, depth }
}

#[test]
fn a_cube_has_six_faces() {
    assert_eq!(CUBE_FACES, 6);
}

#[test]
fn cube_plan_divides_the_slices_by_six() {
    assert_eq!(
        plan(size(128, 128, 36), 3, true, PixelFormat::Rgba32Float),
        Ok(ContainerShape {
            width: 128,
            height: 128,
            depth: 36,
            mip_count: 4,
            array_size: 6,
            is_cubemap: true,
            format: PixelFormat::Rgba32Float,
        })
    );
}

#[test]
fn cube_plan_without_mip_records_has_one_level() {
    let shape = plan(size(64, 64, 6), 0, true, PixelFormat::R11G11B10Float).unwrap();
    assert_eq!(shape.mip_count, 1);
    assert_eq!(shape.array_size, 1);
    assert!(shape.is_cubemap);
}

#[test]
fn cube_plan_rejects_slices_not_divisible_by_six() {
    assert_eq!(
        plan(size(128, 128, 35), 3, true, PixelFormat::Rgba32Float),
        Err(ExtractError::InvalidCubeGeometry { depth: 35 })
    );
}

#[test]
fn cube_plan_over_a_range_of_depths() {
    for depth in -60i32..=600 {
        let outcome = plan(size(16, 8, depth), 2, true, PixelFormat::R8Unorm);
        if depth % 6 == 0 {
            let shape = outcome.unwrap();
            assert_eq!(shape.array_size, depth / 6);
            assert_eq!(shape.array_size * 6, shape.depth);
            assert_eq!(shape.depth, depth);
            assert_eq!(shape.mip_count, 3);
            assert!(shape.is_cubemap);
            assert_eq!(shape.width, 16);
            assert_eq!(shape.height, 8);
            assert_eq!(shape.format, PixelFormat::R8Unorm);
        } else {
            assert_eq!(outcome, Err(ExtractError::InvalidCubeGeometry { depth }));
        }
    }
}

#[test]
fn cube_plan_with_no_slices_is_an_empty_array() {
    let shape = plan(size(4, 4, 0), 1, true, PixelFormat::R8Unorm).unwrap();
    assert_eq!(shape.array_size, 0);
    assert_eq!(shape.mip_count, 2);
}

#[test]
fn cube_plan_at_the_ends_of_the_depth_range() {
    assert_eq!(
        plan(size(1, 1, i32::MAX), 0, true, PixelFormat::R8Unorm),
        Err(ExtractError::InvalidCubeGeometry { depth: i32::MAX })
    );
    assert_eq!(
        plan(size(1, 1, i32::MIN), 0, true, PixelFormat::R8Unorm),
        Err(ExtractError::InvalidCubeGeometry { depth: i32::MIN })
    );
    let shape = plan(size(1, 1, 2147483646), 0, true, PixelFormat::R8Unorm).unwrap();
    assert_eq!(shape.array_size, 357913941);
}

#[test]
fn grid_plan_keeps_the_slices_as_array_elements() {
    assert_eq!(
        plan(size(32, 32, 16), 0, false, PixelFormat::R8Unorm),
        Ok(ContainerShape {
            width: 32,
            height: 32,
            depth: 16,
            mip_count: 1,
            array_size: 16,
            is_cubemap: false,
            format: PixelFormat::R8Unorm,
        })
    );
}

#[test]
fn grid_plan_has_one_mip_level_whatever_the_depth() {
    for depth in -20i32..=200 {
        for mip_records in [0usize, 1, 5, usize::MAX] {
            let shape = plan(size(8, 4, depth), mip_records, false, PixelFormat::Rg32Float).unwrap();
            assert_eq!(shape.mip_count, 1);
            assert!(!shape.is_cubemap);
            assert_eq!(shape.array_size, depth);
            assert_eq!(shape.depth, depth);
            assert_eq!(shape.width, 8);
            assert_eq!(shape.height, 4);
        }
    }
}

#[test]
fn grid_plan_accepts_a_depth_that_no_cube_has() {
    let shape = plan(size(2, 2, 35), 0, false, PixelFormat::Rgb32Float).unwrap();
    assert_eq!(shape.array_size, 35);
    assert_eq!(shape.format, PixelFormat::Rgb32Float);
}
