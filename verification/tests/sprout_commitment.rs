use ironfish_bellperson::gadgets::boolean::Boolean;
use ironfish_sapling::sprout::note_comm_preimage;

fn bits(n: usize, seed: usize) -> Vec<Boolean> {
    (0..n).map(|i| Boolean::constant((i * 7 + seed) % 3 == 0)).collect()
}

fn value(b: &Boolean) -> bool {
    b.get_value().unwrap()
}

#[test]
fn preimage_layout() {
    let a_pk = bits(256, 1);
    let v = bits(64, 2);
    let rho = bits(256, 3);
    let r = bits(256, 4);
    let image = note_comm_preimage(&a_pk, &v, &rho, &r);
    assert_eq!(image.len(), 840);
    let prefix: Vec<bool> = image[..8].iter().map(value).collect();
    assert_eq!(prefix, vec![true, false, true, true, false, false, false, false]);
    assert!(image[..8].iter().all(|b| b.is_constant()));
    let got: Vec<bool> = image[8..].iter().map(value).collect();
    let want: Vec<bool> = a_pk.iter().chain(&v).chain(&rho).chain(&r).map(value).collect();
    assert_eq!(got, want);
}
