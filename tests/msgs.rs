use rgz_transport::discovery_types::{Scope, Type};
use rgz_transport::msgs::geometry;
use rgz_transport::msgs::PixelFormatType;

#[test]
fn schema_names_round_trip() {
    assert_eq!(Scope::All.as_str_name(), "ALL");
    assert_eq!(Scope::from_str_name("HOST"), Some(Scope::Host));
    assert_eq!(Scope::from_str_name("host"), None);
    assert_eq!(Type::NewConnection.as_str_name(), "NEW_CONNECTION");
    assert_eq!(Type::from_str_name("BYE"), Some(Type::Bye));
    assert_eq!(geometry::Type::from_str_name(geometry::Type::Box.as_str_name()), Some(geometry::Type::Box));
    assert_eq!(PixelFormatType::from_str_name("RGB_INT8"), Some(PixelFormatType::RgbInt8));
}
