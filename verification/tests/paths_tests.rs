use hm_pi::paths::subdirs::{Subdir, SubdirPaths};
use hm_pi::paths::usb_drives::{
    device_size_from_sectors, get_usb_mountpoint, is_device_source, is_removable_mount_root,
    is_usb_fstype, label_from_mountpoint, usb_drive_name, usb_mount_candidates, UsbDrive,
};
use hm_pi::paths::{join_path, local_data_root, DEFAULT_ROOT_FOLDER};

#[test]
fn joining_paths() {
    assert_eq!(join_path("/home/op", "hm-pi-data"), "/home/op/hm-pi-data");
    assert_eq!(join_path("/home/op/", "hm-pi-data"), "/home/op/hm-pi-data");
    assert_eq!(join_path("", "hm-pi-data"), "hm-pi-data");
}

#[test]
fn data_root() {
    assert_eq!(DEFAULT_ROOT_FOLDER, "hm-pi-data");
    assert_eq!(local_data_root(Some("/home/op")), "/home/op/hm-pi-data");
    assert_eq!(local_data_root(None), "hm-pi-data");
}

#[test]
fn subdirectory_names() {
    let names: Vec<&str> = Subdir::variants().iter().map(|d| d.path()).collect();
    assert_eq!(
        names,
        vec!["motion-profiles", "weld-profiles", "logs", "config", "connection-profiles"]
    );
    let indices: Vec<u8> = Subdir::variants().iter().map(|d| u8::from(*d)).collect();
    assert_eq!(indices, vec![0, 1, 2, 3, 4]);
    assert_eq!(Subdir::Config.local_path("/home/op/hm-pi-data"), "/home/op/hm-pi-data/config");
    assert_eq!(
        Subdir::WeldProfiles.path_in_usb_root("/run/media/op/STICK"),
        "/run/media/op/STICK/hm-pi-data/weld-profiles"
    );
}

#[test]
fn subdir_paths_map_each_subdirectory() {
    let paths = SubdirPaths::new_mapped(|d| format!("/data/{}", d.path()));
    assert_eq!(paths.get(Subdir::MotionProfiles), "/data/motion-profiles");
    assert_eq!(paths.get(Subdir::ConnectionProfiles), "/data/connection-profiles");
    assert_eq!(paths.get(Subdir::Logs), "/data/logs");
}

const SAMPLE_MOUNTS: &str = "proc /proc proc rw,nosuid,nodev,noexec,relatime 0 0
/dev/nvme1n1p2 / btrfs rw,relatime,compress=zstd:3,ssd,discard=async,space_cache=v2,subvolid=256,subvol=/@ 0 0
tmpfs /tmp tmpfs rw,nosuid,nodev,size=16267768k,nr_inodes=1048576,inode64,usrquota 0 0
/dev/nvme1n1p1 /boot vfat rw,relatime,fmask=0022,dmask=0022,codepage=437,iocharset=ascii,shortname=mixed,utf8,errors=remount-ro 0 0
portal /run/user/1000/doc fuse.portal rw,nosuid,nodev,relatime,user_id=1000,group_id=1000 0 0
/dev/sda1 /run/media/pfornage/E6DB-5F09 vfat rw,nosuid,nodev,relatime,uid=1000,gid=1000,fmask=0022,dmask=0022,codepage=437,iocharset=ascii,shortname=mixed,showexec,utf8,flush,errors=remount-ro 0 0
";

#[test]
fn finds_removable_mounts() {
    let found = usb_mount_candidates(SAMPLE_MOUNTS);
    assert_eq!(found.len(), 1);
    assert_eq!(found[0].source, "/dev/sda1");
    assert_eq!(found[0].mountpoint, "/run/media/pfornage/E6DB-5F09");
}

#[test]
fn unescapes_spaces_and_checks_every_line() {
    let table = "/dev/sdb1 /media/My\\040Stick exfat rw 0 0\r\n\
                 /dev/sdc1 /mnt/backup ext4 rw 0 0\n\
                 /dev/sdd1 /mediax/other vfat rw 0 0\n\
                 short line\n\
                 /dev/sde1 /home/op/usb ntfs3 rw 0 0";
    let found = usb_mount_candidates(table);
    let got: Vec<(String, String)> =
        found.into_iter().map(|c| (c.source, c.mountpoint)).collect();
    assert_eq!(
        got,
        vec![
            ("/dev/sdb1".to_string(), "/media/My Stick".to_string()),
            ("/dev/sdc1".to_string(), "/mnt/backup".to_string()),
        ]
    );
    assert!(usb_mount_candidates("").is_empty());
}

#[test]
fn file_systems_and_roots() {
    for fs in ["vfat", "exfat", "ntfs", "ntfs3", "ext2", "ext3", "ext4"] {
        assert!(is_usb_fstype(fs));
    }
    assert!(!is_usb_fstype("btrfs"));
    assert!(!is_usb_fstype("VFAT"));
    assert!(is_removable_mount_root("/run/media/op/X"));
    assert!(is_removable_mount_root("/media"));
    assert!(is_removable_mount_root("/mnt/"));
    assert!(!is_removable_mount_root("/mediax"));
    assert!(!is_removable_mount_root("/home/mnt"));
}

#[test]
fn drive_names() {
    assert_eq!(label_from_mountpoint("/run/media/op/STICK/"), Some("STICK".to_string()));
    assert_eq!(label_from_mountpoint("/"), None);
    assert_eq!(
        usb_drive_name(Some("LABEL".to_string()), "/run/media/op/STICK"),
        "LABEL"
    );
    assert_eq!(usb_drive_name(None, "/run/media/op/STICK"), "STICK");
    assert_eq!(usb_drive_name(None, "/"), "/");
}

#[test]
fn device_sources_and_sizes() {
    assert!(is_device_source("/dev/sda1"));
    assert!(!is_device_source("/dev"));
    assert!(!is_device_source("tmpfs"));
    assert_eq!(device_size_from_sectors(2), 1024);
    assert_eq!(device_size_from_sectors(u64::MAX / 256), u64::MAX);
}

fn drive(mountpoint: &str) -> UsbDrive {
    UsbDrive { name: String::new(), mountpoint: mountpoint.to_string(), size_bytes: 0 }
}

#[test]
fn picks_the_first_mountpoint_in_path_order() {
    assert_eq!(get_usb_mountpoint(&Vec::new()), None);
    let drives = vec![drive("/run/media/op/B"), drive("/run/media-x"), drive("/run/media/op/A")];
    // Paths compare by component: "media" comes before "media-x".
    assert_eq!(get_usb_mountpoint(&drives), Some("/run/media/op/A".to_string()));
    assert_eq!(drives[1].mountpoint_display(), "/run/media-x");
}
