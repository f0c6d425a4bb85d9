use brio_kernel::host::HostKernel;
use brio_kernel::registry::ProviderRegistry;

#[test]
fn default_is_most_recently_marked() {
    let mut r: ProviderRegistry<&str> = ProviderRegistry::new();
    assert_eq!(r.get_default(), None);
    r.register("fast".to_string(), "fast-impl");
    r.register("big".to_string(), "big-impl");
    r.set_default("fast".to_string());
    assert_eq!(r.get_default(), Some(&"fast-impl"));
    r.set_default("big".to_string());
    assert_eq!(r.get_default(), Some(&"big-impl"));
    assert_eq!(r.len(), 2);
}

#[test]
fn missing_name_gives_nothing() {
    let mut r: ProviderRegistry<u8> = ProviderRegistry::new();
    r.register("a".to_string(), 1);
    assert_eq!(r.get("missing"), None);
    assert!(!r.contains("missing"));
    r.set_default("missing".to_string());
    assert_eq!(r.get_default(), None);
}

#[test]
fn reregistering_replaces_provider() {
    let mut r: ProviderRegistry<u8> = ProviderRegistry::new();
    r.register("a".to_string(), 1);
    r.register("a".to_string(), 2);
    assert_eq!(r.get("a"), Some(&2));
    assert_eq!(r.len(), 1);
}

#[test]
fn kernel_with_single_provider_serves_it_as_default() {
    let k: HostKernel<(), u8> = HostKernel::with_provider(9);
    assert_eq!(k.inference(), Some(&9));
    assert_eq!(k.inference_by_name("default"), Some(&9));
    assert_eq!(k.inference_by_name("other"), None);
    assert!(k.registry().contains("default"));
}
