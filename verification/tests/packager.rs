use practice_tool::packager::{
    archive_path, dist_dir, dist_entries, icon_resources, join_path, IconError, GROUP_HEADER_LEN,
};

#[test]
fn dist_dir_is_under_the_project_root() {
    assert_eq!(dist_dir("/work/tool"), "/work/tool/target/dist");
    assert_eq!(dist_dir("/work/tool/"), "/work/tool/target/dist");
    assert_eq!(dist_dir("C:\\work\\"), "C:\\work\\target/dist");
    assert_eq!(dist_dir("C:\\work"), "C:\\work/target/dist");
    assert_eq!(dist_dir(""), "target/dist");
}

#[test]
fn join_path_puts_one_separator() {
    assert_eq!(join_path("a", "b"), "a/b");
    assert_eq!(join_path("a/", "b"), "a/b");
    assert_eq!(join_path("目录", "b"), "目录/b");
    assert_eq!(join_path("", ""), "");
}

#[test]
fn the_archive_holds_three_files() {
    let entries = dist_entries("/r");
    let pairs: Vec<(&str, &str)> = entries.iter().map(|e| (e.source.as_str(), e.name.as_str())).collect();
    assert_eq!(
        pairs,
        vec![
            ("/r/target/release/jdsd_dsiii_practice_tool.exe", "jdsd_dsiii_practice_tool.exe"),
            ("/r/target/release/libjdsd_dsiii_practice_tool.dll", "jdsd_dsiii_practice_tool.dll"),
            ("/r/practice-tool/jdsd_dsiii_practice_tool.toml", "jdsd_dsiii_practice_tool.toml"),
        ]
    );
    assert_eq!(archive_path("/r"), "/r/target/dist/jdsd_dsiii_practice_tool.zip");
}

fn icon_file(offset: u32, bytes: u32, total: usize) -> Vec<u8> {
    let mut file: Vec<u8> = (0..total).map(|i| (i % 251) as u8).collect();
    file[14..18].copy_from_slice(&bytes.to_le_bytes());
    file[18..22].copy_from_slice(&offset.to_le_bytes());
    file
}

#[test]
fn icon_header_points_at_the_image() {
    assert_eq!(GROUP_HEADER_LEN, 22);
    let file = icon_file(22, 0x0102, 22 + 0x0102);
    let res = icon_resources(&file).unwrap();
    assert_eq!((res.image_start, res.image_end), (22, 22 + 0x0102));
    let mut group = file[..18].to_vec();
    group.extend([1, 0, 0, 0]);
    assert_eq!(res.group, group);
    let file = icon_file(30, 0, 30);
    let res = icon_resources(&file).unwrap();
    assert_eq!((res.image_start, res.image_end), (30, 30));
}

#[test]
fn icon_errors() {
    assert_eq!(icon_resources(&[]).unwrap_err(), IconError::Truncated);
    assert_eq!(icon_resources(&[0u8; 21]).unwrap_err(), IconError::Truncated);
    assert_eq!(icon_resources(&icon_file(22, 9, 30)).unwrap_err(), IconError::OutOfBounds);
    assert_eq!(icon_resources(&icon_file(u32::MAX, u32::MAX, 64)).unwrap_err(), IconError::OutOfBounds);
    assert!(icon_resources(&icon_file(22, 8, 30)).is_ok());
}
