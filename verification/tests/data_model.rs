use storage_impl::DataModelExt;

#[derive(Debug, PartialEq)]
struct Minutes(u32);

impl DataModelExt for Minutes {
    type StorageModel = u64;

    fn to_storage_model(self) -> u64 {
        u64::from(self.0) * 60
    }

    fn from_storage_model(storage_model: u64) -> Self {
        Minutes((storage_model / 60) as u32)
    }
}

#[test]
fn a_domain_model_can_be_stored_and_read_back() {
    assert_eq!(Minutes(3).to_storage_model(), 180);
    assert_eq!(Minutes::from_storage_model(180), Minutes(3));
}
