use rust_system::{hit_points, new_lidar_config, ImageData};

#[test]
fn lidar_config_keeps_its_fields() {
    let c = new_lidar_config(
        16,
        360,
        (-0.26f32).to_bits(),
        0.26f32.to_bits(),
        0.035f32.to_bits(),
        0.0f32.to_bits(),
        6.28f32.to_bits(),
        0.0174f32.to_bits(),
    );
    assert_eq!(c.num_lasers, 16);
    assert_eq!(c.num_steps, 360);
    assert_eq!(f32::from_bits(c.min_vertical_angle), -0.26);
    assert_eq!(f32::from_bits(c.max_vertical_angle), 0.26);
    assert_eq!(f32::from_bits(c.step_vertical_angle), 0.035);
    assert_eq!(f32::from_bits(c.min_horizontal_angle), 0.0);
    assert_eq!(f32::from_bits(c.max_horizontal_angle), 6.28);
    assert_eq!(f32::from_bits(c.step_horizontal_angle), 0.0174);
}

#[test]
fn beams_are_laid_out_laser_by_laser() {
    let c = new_lidar_config(2, 3, 0, 0, 0, 0, 0, 0);
    assert_eq!(
        c.beam_indices(),
        vec![(0usize, 0usize), (0, 1), (0, 2), (1, 0), (1, 1), (1, 2)]
    );
}

#[test]
fn beam_position_formula() {
    let c = new_lidar_config(4, 7, 0, 0, 0, 0, 0, 0);
    let b = c.beam_indices();
    assert_eq!(b.len(), 28);
    for i in 0..4 {
        for j in 0..7 {
            assert_eq!(b[i * 7 + j], (i, j));
        }
    }
}

#[test]
fn no_lasers_or_no_steps_give_no_beams() {
    assert!(new_lidar_config(0, 5, 0, 0, 0, 0, 0, 0).beam_indices().is_empty());
    assert!(new_lidar_config(5, 0, 0, 0, 0, 0, 0, 0).beam_indices().is_empty());
}

#[test]
fn hit_points_keeps_only_hits_in_order() {
    let values: Vec<f32> = vec![
        1.0, 2.0, 3.0, 4.0, // hit
        5.0, 6.0, 7.0, 10000.0, // no hit
        8.0, 9.0, 10.0, 11.0, // hit
    ];
    let hits: Vec<bool> = values.chunks(4).map(|p| p[3] < 10000.0).collect();
    assert_eq!(hits, vec![true, false, true]);
    assert_eq!(
        hit_points(&values, &hits),
        vec![1.0, 2.0, 3.0, 4.0, 8.0, 9.0, 10.0, 11.0]
    );
}

#[test]
fn hit_points_all_and_none() {
    let values: Vec<u32> = (0..8).collect();
    assert_eq!(hit_points(&values, &[true, true]), values);
    assert!(hit_points(&values, &[false, false]).is_empty());
    assert!(hit_points::<u32>(&[], &[]).is_empty());
}

#[test]
fn hit_points_length_is_four_per_hit() {
    let values: Vec<u32> = (0..20).collect();
    let hits = [false, true, true, false, true];
    let kept = hit_points(&values, &hits);
    assert_eq!(kept.len(), 4 * 3);
    assert_eq!(kept, vec![4, 5, 6, 7, 8, 9, 10, 11, 16, 17, 18, 19]);
}

#[test]
fn image_data_holds_its_values() {
    let img = ImageData { data: vec![1, 2, 3, 4, 5, 6], width: 3, height: 2 };
    assert_eq!(img.data.len(), (img.width * img.height) as usize);
}
