use tontoo_ui::store_product::StoreProduct;

#[test]
fn defaults_exist() {
    assert_eq!(StoreProduct::monthly_default().price, "$0.99/month");
    assert_eq!(StoreProduct::hat_default().title, "Kitty Hat");
    assert_eq!(StoreProduct::yearly_default().price, "$9.99/year");
}

#[test]
fn new_keeps_fields_and_defaults_differ() {
    let p = StoreProduct::new("A", "B", "C");
    assert_eq!((p.title.as_str(), p.subtitle.as_str(), p.price.as_str()), ("A", "B", "C"));
    let monthly = StoreProduct::monthly_default();
    assert_eq!(monthly.title, "VIP Kitty Pass");
    assert_eq!(monthly.subtitle, "Enjoy the full premium kitty experience");
    let hat = StoreProduct::hat_default();
    assert_eq!(hat.subtitle, "A cute hat for your kitty");
    assert_eq!(hat.price, "$1.99");
    let yearly = StoreProduct::yearly_default();
    assert_eq!(yearly.subtitle, "1 week free, then $9.99/year");
    assert_eq!(yearly.title, monthly.title);
    assert_ne!(yearly, monthly);
    assert_eq!(hat.clone(), hat);
}
