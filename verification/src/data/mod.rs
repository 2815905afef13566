pub mod manifest_blob;
