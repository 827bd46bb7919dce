use motoro::math::{
    Vec2i, Vec2s, VecArith, VecBorder, VecCast, VecComponents, VecGrid, VecIndexer, VecNeg,
    VecNeighbors, VecRange, VecResize, VecSpace,
};

#[test]
fn components_by_name() {
    let v = [1u8, 2, 3, 4];
    assert_eq!((v.x(), v.y(), v.z(), v.w()), (1, 2, 3, 4));
    assert_eq!((v.r(), v.g(), v.b(), v.a()), (1, 2, 3, 4));
    assert_eq!(v.xy(), [1, 2]);
    assert_eq!(v.xyz(), [1, 2, 3]);
    assert_eq!(v.wh(), [3, 4]);
    assert_eq!(v.rgb(), [1, 2, 3]);
    assert_eq!([7i32, 8].y(), 8);
}

#[test]
fn range_goes_from_first_to_second() {
    assert_eq!([3usize, 7].range(), 3..7);
    assert_eq!([3usize, 7].range().collect::<Vec<_>>(), vec![3, 4, 5, 6]);
    assert_eq!(['a', 'c'].range().start, 'a');
}

#[test]
fn arithmetic_works_by_component() {
    let a: Vec2s = [6, 9];
    assert_eq!(VecArith::<Vec2s>::add(&a, [1, 2]), [7, 11]);
    assert_eq!(VecArith::<Vec2s>::sub(&a, [1, 2]), [5, 7]);
    assert_eq!(VecArith::<Vec2s>::mul(&a, [2, 3]), [12, 27]);
    assert_eq!(VecArith::<Vec2s>::div(&a, [4, 2]), [1, 4]);
    assert_eq!(VecArith::<usize>::add(&a, 1), [7, 10]);
    assert_eq!(VecArith::<usize>::sub(&a, 6), [0, 3]);
    assert_eq!(VecArith::<usize>::mul(&a, 3), [18, 27]);
    assert_eq!(VecArith::<usize>::div(&a, 4), [1, 2]);
    let u: [u32; 3] = [6, 9, 0];
    assert_eq!(VecArith::<[u32; 3]>::add(&u, [1, 2, 3]), [7, 11, 3]);
    assert_eq!(VecArith::<u32>::mul(&u, 2), [12, 18, 0]);
    let i: Vec2i = [-7, 7];
    assert_eq!(VecArith::<Vec2i>::add(&i, [1, -2]), [-6, 5]);
    assert_eq!(VecArith::<Vec2i>::sub(&i, [1, -2]), [-8, 9]);
    assert_eq!(VecArith::<Vec2i>::mul(&i, [-2, 3]), [14, 21]);
    assert_eq!(VecArith::<Vec2i>::div(&i, [2, -2]), [-3, -3]);
    assert_eq!(VecArith::<Vec2i>::div(&i, [-2, 2]), [3, 3]);
    assert_eq!(VecArith::<i32>::div(&i, 2), [-3, 3]);
    assert_eq!(VecArith::<i32>::div(&[i32::MIN, 5], 2), [i32::MIN / 2, 2]);
    assert_eq!(VecArith::<i32>::sub(&i, 3), [-10, 4]);
    let none: [i32; 0] = [];
    assert_eq!(VecArith::<i32>::div(&none, 0), none);
}

#[test]
fn neg_and_cast() {
    assert_eq!([1i32, -2, 0].neg(), [-1, 2, 0]);
    let cast: [usize; 2] = [5i32, -1].cast();
    assert_eq!(cast, [5, usize::MAX]);
    let cast: [i32; 2] = [5usize, usize::MAX].cast();
    assert_eq!(cast, [5, -1]);
    let cast: [isize; 2] = [5usize, usize::MAX].cast();
    assert_eq!(cast, [5, -1]);
    let cast: [usize; 2] = [5isize, -2].cast();
    assert_eq!(cast, [5, usize::MAX - 1]);
}

#[test]
fn border_index_and_space() {
    let grid: Vec2s = [10, 5];
    assert!([0usize, 2].on_border(grid, 1));
    assert!([9usize, 2].on_border(grid, 1));
    assert!([4usize, 4].on_border(grid, 1));
    assert!(![4usize, 3].on_border(grid, 1));
    assert!([4usize, 3].on_border(grid, 2));
    assert!(![1usize, 1].on_border(grid, 0));
    assert!([2i32, 2].on_border([5, 5], 3));
    assert!(![2i32, 2].on_border([5, 5], 2));
    assert_eq!([3usize, 2].as_index(grid), 23);
    assert_eq!([3i32, -2].as_index([10, 5]), -17);
    assert_eq!(grid.space(), 50);
    assert_eq!([2usize, 3, 4].space(), 24);
    assert_eq!([7usize].space(), 7);
    assert_eq!([-2i32, 3].space(), -6);
    assert!(grid.has([9, 4]));
    assert!(!grid.has([10, 4]));
    assert!(!grid.has([0, 5]));
    assert!([5i32, 5].has([0, 4]));
    assert!(![5i32, 5].has([-1, 4]));
    assert!([3usize, 4].in_rect([1, 2], [2, 2]));
    assert!(![4usize, 4].in_rect([1, 2], [2, 2]));
    assert!(![0usize, 3].in_rect([1, 2], [2, 2]));
    assert!([-1i32, 0].in_rect([-1, -1], [0, 1]));
}

#[test]
fn grid_positions_cells_and_border() {
    let grid: Vec2s = [4, 3];
    assert_eq!(grid.position_of(0), [0, 0]);
    assert_eq!(grid.position_of(5), [1, 1]);
    assert_eq!(grid.position_of(11), [3, 2]);
    assert_eq!(
        grid.cells(),
        vec![
            [0, 0],
            [1, 0],
            [2, 0],
            [3, 0],
            [0, 1],
            [1, 1],
            [2, 1],
            [3, 1],
            [0, 2],
            [1, 2],
            [2, 2],
            [3, 2]
        ]
    );
    assert_eq!(
        grid.border(1),
        vec![
            [0, 0],
            [1, 0],
            [2, 0],
            [3, 0],
            [0, 1],
            [3, 1],
            [0, 2],
            [1, 2],
            [2, 2],
            [3, 2]
        ]
    );
    assert_eq!(grid.border(0), Vec::<Vec2s>::new());
    assert_eq!(grid.border(2).len(), 12);
    assert_eq!(grid.border(9).len(), 12);
    assert_eq!([0usize, 3].cells(), Vec::<Vec2s>::new());
    for (index, cell) in grid.cells().iter().enumerate() {
        assert_eq!(grid.position_of(index), *cell);
        assert_eq!(cell.as_index(grid), index);
    }
}

#[test]
fn neighbors_of_a_cell() {
    let grid: Vec2s = [4, 3];
    assert_eq!(
        [1usize, 1].rectangle([1, 1], grid),
        vec![
            [0, 0],
            [1, 0],
            [2, 0],
            [0, 1],
            [1, 1],
            [2, 1],
            [0, 2],
            [1, 2],
            [2, 2]
        ]
    );
    assert_eq!(
        [0usize, 0].rectangle([1, 0], grid),
        vec![[0, 0], [1, 0]]
    );
    assert_eq!(
        [3usize, 2].around(1, grid),
        vec![[2, 1], [3, 1], [2, 2], [3, 2]]
    );
    assert_eq!([1usize, 1].around(0, grid), vec![[1, 1]]);
    assert_eq!([9usize, 9].around(1, grid), Vec::<Vec2s>::new());
    assert_eq!(
        [1usize, 1].cross(grid),
        vec![[0, 1], [1, 0], [2, 1], [1, 2]]
    );
    assert_eq!([0usize, 0].cross(grid), vec![[1, 0], [0, 1]]);
    assert_eq!([3usize, 2].cross(grid), vec![[2, 2], [3, 1]]);
    let grid: Vec2i = [4, 3];
    assert_eq!(
        [1i32, 1].cross(grid),
        vec![[0, 1], [1, 0], [2, 1], [1, 2]]
    );
    assert_eq!([0i32, 0].cross(grid), vec![[1, 0], [0, 1]]);
    assert_eq!(
        [3i32, 2].around(1, grid),
        vec![[2, 1], [3, 1], [2, 2], [3, 2]]
    );
    assert_eq!(
        [0i32, 1].rectangle([1, 0], grid),
        vec![[0, 1], [1, 1]]
    );
}

#[test]
fn resize_keeps_the_first_components() {
    let longer: [u8; 4] = [1u8, 2].resize();
    assert_eq!(longer, [1, 2, 0, 0]);
    let shorter: [u8; 1] = [1u8, 2, 3].resize();
    assert_eq!(shorter, [1]);
    let same: [i32; 2] = [-1i32, 5].resize();
    assert_eq!(same, [-1, 5]);
    let none: [u8; 0] = [1u8].resize();
    assert_eq!(none, []);
}
