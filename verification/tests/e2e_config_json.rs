// The end-to-end run of the original needs the native library and a built
// echo worker; neither is part of this crate's test run.

#[test]
fn native_feature_required() {
    println!("Skipping e2e test: requires --features native");
}
