use std::collections::HashMap;
use wascc_actor::dispatch::DispatchTable;
use wascc_actor::errors::{new, Error, ErrorKind};
use wascc_actor::events::Event;
use wascc_actor::objectstore::{Blob, BlobList, Container, Transfer};
use wascc_actor::{
    CapabilitiesContext, EventStreams, Extras, HostContext, KeyValueStore, MessageBroker,
    ObjectStore, RawCapability,
};

struct FakeStore;

impl KeyValueStore for FakeStore {
    fn get(&self, key: &str) -> Result<Option<String>, Error> {
        if key == "known" {
            Ok(Some("value".to_string()))
        } else {
            Ok(None)
        }
    }
    fn set(&self, _key: &str, _value: &str, _expires: Option<u32>) -> Result<(), Error> {
        Ok(())
    }
    fn atomic_add(&self, _key: &str, value: i32) -> Result<i32, Error> {
        Ok(value)
    }
    fn list_add(&self, _key: &str, _item: &str) -> Result<usize, Error> {
        Ok(1)
    }
    fn list_del_item(&self, _key: &str, _item: &str) -> Result<usize, Error> {
        Ok(0)
    }
    fn del_key(&self, _key: &str) -> Result<(), Error> {
        Ok(())
    }
    fn list_range(&self, _key: &str, _start: isize, _stop: isize) -> Result<Vec<String>, Error> {
        Ok(vec![])
    }
    fn list_clear(&self, _key: &str) -> Result<(), Error> {
        Ok(())
    }
    fn set_add(&self, _key: &str, _value: &str) -> Result<usize, Error> {
        Ok(1)
    }
    fn set_remove(&self, _key: &str, _value: &str) -> Result<usize, Error> {
        Ok(0)
    }
    fn set_union(&self, keys: Vec<String>) -> Result<Vec<String>, Error> {
        Ok(keys)
    }
    fn set_intersect(&self, _keys: Vec<String>) -> Result<Vec<String>, Error> {
        Ok(vec![])
    }
    fn set_members(&self, _key: &str) -> Result<Vec<String>, Error> {
        Ok(vec![])
    }
    fn key_exists(&self, key: &str) -> Result<bool, Error> {
        Ok(key == "known")
    }
}

struct FakeBroker;

impl MessageBroker for FakeBroker {
    fn publish(&self, _subject: &str, _reply_to: Option<&str>, _payload: &[u8]) -> Result<(), Error> {
        Ok(())
    }
    fn request(&self, _subject: &str, payload: &[u8], _timeout_ms: u64) -> Result<Vec<u8>, Error> {
        Ok(payload.to_vec())
    }
}

struct FakeRaw;

impl RawCapability for FakeRaw {
    fn call(&self, _capid: &str, operation: &str, _msg: &[u8]) -> Result<Vec<u8>, Error> {
        Err(new(ErrorKind::HostError(format!("no provider for {}", operation))))
    }
}

struct FakeBlobs;

impl ObjectStore for FakeBlobs {
    fn create_container(&self, name: &str) -> Result<Container, Error> {
        Ok(Container { id: name.to_string() })
    }
    fn remove_container(&self, _name: &str) -> Result<(), Error> {
        Ok(())
    }
    fn remove_object(&self, _id: &str, _container: &str) -> Result<(), Error> {
        Ok(())
    }
    fn list_objects(&self, _container: &str) -> Result<BlobList, Error> {
        Ok(BlobList { blobs: vec![] })
    }
    fn get_blob_info(&self, _container: &str, _id: &str) -> Result<Option<Blob>, Error> {
        Ok(None)
    }
    fn start_upload(&self, blob: &Blob, chunk_size: u64, total: u64) -> Result<Transfer, Error> {
        Ok(Transfer::plan(blob, chunk_size, total))
    }
    fn upload_chunk(&self, _transfer: &Transfer, _offset: u64, _bytes: &[u8]) -> Result<(), Error> {
        Ok(())
    }
    fn start_download(&self, blob: &Blob, chunk_size: u64) -> Result<Transfer, Error> {
        Ok(Transfer::plan(blob, chunk_size, blob.byte_size))
    }
}

struct FakeExtras;

impl Extras for FakeExtras {
    fn get_random(&self, min: u32, _max: u32) -> Result<u32, Error> {
        Ok(min)
    }
    fn get_guid(&self) -> Result<String, Error> {
        Ok("guid".to_string())
    }
    fn get_sequence_number(&self) -> Result<u64, Error> {
        Ok(1)
    }
}

struct FakeEvents;

impl EventStreams for FakeEvents {
    fn write_event(&self, _stream: &str, _values: HashMap<String, String>) -> Result<String, Error> {
        Ok("evt-1".to_string())
    }
    fn read_all(&self, _stream: &str) -> Result<Vec<Event>, Error> {
        Ok(vec![])
    }
}

type Fakes = CapabilitiesContext<FakeStore, FakeBroker, FakeRaw, FakeBlobs, FakeExtras, FakeEvents>;

fn fakes() -> Fakes {
    CapabilitiesContext::custom(FakeStore, FakeBroker, FakeRaw, FakeBlobs, FakeExtras, FakeEvents)
}

#[test]
fn custom_context_hands_out_the_clients_it_was_made_of() {
    let ctx = fakes();
    assert_eq!(ctx.kv().get("known").unwrap(), Some("value".to_string()));
    assert_eq!(ctx.kv().get("never seen").unwrap(), None);
    assert_eq!(ctx.msg().request("s", &[1], 10).unwrap(), vec![1]);
    assert!(matches!(ctx.raw().call("c", "Op", &[]).unwrap_err().kind(), ErrorKind::HostError(_)));
    assert_eq!(ctx.objectstore().create_container("c").unwrap().id, "c");
    assert_eq!(ctx.extras().get_random(4, 8).unwrap(), 4);
    assert_eq!(ctx.events().write_event("s", HashMap::new()).unwrap(), "evt-1");
}

#[test]
fn upload_through_a_fake_store_plans_whole_chunks() {
    let ctx = fakes();
    let blob = Blob { id: "b".to_string(), container: "c".to_string(), byte_size: 0 };
    let plan = ctx.objectstore().start_upload(&blob, 3, 10).unwrap();
    assert_eq!(plan.total_chunks, 3);
    assert_eq!(plan.total_size, 10);
    assert_eq!(plan.chunk_size, 3);
    let plan = ctx.objectstore().start_upload(&blob, 3, 9).unwrap();
    assert_eq!(plan.total_chunks, 3);
    assert_eq!(plan.total_size, 9);
}

#[test]
fn default_wiring_addresses_the_default_binding_everywhere() {
    let ctx: HostContext = CapabilitiesContext::new();
    assert_eq!(ctx.kv().get_request("k").unwrap().binding, "default");
    assert_eq!(ctx.msg().publish_request("s", None, &[]).unwrap().binding, "default");
    assert_eq!(ctx.raw().call_request("c", "o", &[]).binding, "default");
    assert_eq!(ctx.objectstore().list_objects_request("c").unwrap().binding, "default");
    assert_eq!(ctx.extras().get_guid_request().unwrap().binding, "default");
    assert_eq!(ctx.events().read_all_request("s").unwrap().binding, "default");
    let same: HostContext = Default::default();
    assert_eq!(same.kv().get_request("k").unwrap().binding, "default");
}

fn lookup(ctx: &Fakes, payload: &[u8]) -> Result<Vec<u8>, Error> {
    let key = String::from_utf8(payload.to_vec())?;
    match ctx.kv().get(&key)? {
        Some(value) => Ok(value.into_bytes()),
        None => Ok(vec![]),
    }
}

fn untyped(ctx: &Fakes, payload: &[u8]) -> Result<Vec<u8>, Error> {
    ctx.raw().call("acme:sensor", "Read", payload)
}

fn draw(ctx: &Fakes, _payload: &[u8]) -> Result<Vec<u8>, Error> {
    Ok(vec![ctx.extras().get_random(7, 9)? as u8])
}

#[test]
fn handlers_reach_the_host_through_the_context() {
    type Handler = fn(&Fakes, &[u8]) -> Result<Vec<u8>, Error>;
    let table: DispatchTable<Handler> = DispatchTable::new()
        .register("Lookup", lookup as Handler)
        .register("Untyped", untyped as Handler)
        .register("Draw", draw as Handler);
    let ctx = fakes();
    assert_eq!(table.dispatch(&ctx, "Lookup", b"known").unwrap(), b"value".to_vec());
    assert_eq!(table.dispatch(&ctx, "Lookup", b"other").unwrap(), Vec::<u8>::new());
    assert_eq!(table.dispatch(&ctx, "Draw", &[]).unwrap(), vec![7]);
    let failed = table.dispatch(&ctx, "Untyped", &[]).unwrap_err();
    assert_eq!(failed.message(), "Host error: no provider for Read");
    let failed = table.dispatch(&ctx, "Lookup", &[0xff]).unwrap_err();
    assert!(matches!(failed.kind(), ErrorKind::UTF8(_)));
    let failed = table.dispatch(&ctx, "Missing", &[]).unwrap_err();
    assert!(matches!(failed.kind(), ErrorKind::BadDispatch(op) if op == "Missing"));
}
