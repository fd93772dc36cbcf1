//! The permutation of width 4 over the BN254 scalar field: S-box degree 5,
//! 8 external and 56 internal rounds.

use crate::field::{all_wf, element, modulus, values, Fq};
use crate::poseidon2::bn254::place_block;
use crate::poseidon2::model::{diagonal_fits_width, permute, Parameters};
use crate::poseidon2::perm::{valid_config, Poseidon2Permutation};
use vstd::prelude::*;

verus! {

/// The diagonal of the internal matrix, each entry less one.
pub open spec fn diag_m1() -> Seq<nat> {
    seq![
        7626475329478847982857743246276194948757851985510858890691733676098590062311nat,
        5498568565063849786384470689962419967523752476452646391422913716315471115275nat,
        148936322117705719734052984176402258788283488576388928671173547788498414613nat,
        15456385653678559339152734484033356164266089951521103188900320352052358038155nat,
    ]
}

/// The constants of external round 0.
pub open spec fn rc_external_0() -> Seq<nat> {
    seq![
        11633431549750490989983886834189948010834808234699737327785600195936805266405nat,
        17353750182810071758476407404624088842693631054828301270920107619055744005334nat,
        11575173631114898451293296430061690731976535592475236587664058405912382527658nat,
        9724643380371653925020965751082872123058642683375812487991079305063678725624nat,
    ]
}

/// The constants of external round 1.
pub open spec fn rc_external_1() -> Seq<nat> {
    seq![
        20936725237749945635418633443468987188819556232926135747685274666391889856770nat,
        6427758822462294912934022562310355233516927282963039741999349770315205779230nat,
        16782979953202249973699352594809882974187694538612412531558950864304931387798nat,
        8979171037234948998646722737761679613767384188475887657669871981433930833742nat,
    ]
}

/// The constants of external round 2.
pub open spec fn rc_external_2() -> Seq<nat> {
    seq![
        5428827536651017352121626533783677797977876323745420084354839999137145767736nat,
        507241738797493565802569310165979445570507129759637903167193063764556368390nat,
        6711578168107599474498163409443059675558516582274824463959700553865920673097nat,
        2197359304646916921018958991647650011119043556688567376178243393652789311643nat,
    ]
}

/// The constants of external round 3.
pub open spec fn rc_external_3() -> Seq<nat> {
    seq![
        4634703622846121403803831560584049007806112989824652272428991253572845447400nat,
        17008376818199175111793852447685303011746023680921106348278379453039148937791nat,
        18430784755956196942937899353653692286521408688385681805132578732731487278753nat,
        4573768376486344895797915946239137669624900197544620153250805961657870918727nat,
    ]
}

/// The constants of external round 4.
pub open spec fn rc_external_4() -> Seq<nat> {
    seq![
        10670120969725161535937685539136065944959698664551200616467222887025111751992nat,
        4731853626374224678749618809759140702342195350742653173378450474772131006181nat,
        14473527495914528513885847341981310373531349450901830749157165104135412062812nat,
        16937191362061486658876740597821783333355021670608822932942683228741190786143nat,
    ]
}

/// The constants of external round 5.
pub open spec fn rc_external_5() -> Seq<nat> {
    seq![
        5656559696428674390125424316117443507583679061659043998559560535270557939546nat,
        8897648276515725841133578021896617755369443750194849587616503841335248902806nat,
        14938684446722672719637788054570691068799510611164812175626676768545923371470nat,
        15284149043690546115252102390417391226617211133644099356880071475803043461465nat,
    ]
}

/// The constants of external round 6.
pub open spec fn rc_external_6() -> Seq<nat> {
    seq![
        2623479025068612775740107497276979457946709347831661908218182874823658838107nat,
        6809791961761836061129379546794905411734858375517368211894790874813684813988nat,
        2417620338751920563196799065781703780495622795713803712576790485412779971775nat,
        4445143310792944321746901285176579692343442786777464604312772017806735512661nat,
    ]
}

/// The constants of external round 7.
pub open spec fn rc_external_7() -> Seq<nat> {
    seq![
        1429019233589939118995503267516676481141938536269008901607126781291273208629nat,
        19874283200702583165110559932895904979843482162236139561356679724680604144459nat,
        13426632171723830006915194799390005513190035492503509233177687891041405113055nat,
        10582332261829184460912611488470654685922576576939233092337240630493625631748nat,
    ]
}

/// The constants of the external rounds, one vector for each round.
pub open spec fn rc_external() -> Seq<Seq<nat>> {
    seq![
        rc_external_0(),
        rc_external_1(),
        rc_external_2(),
        rc_external_3(),
        rc_external_4(),
        rc_external_5(),
        rc_external_6(),
        rc_external_7(),
    ]
}

/// The constants of the internal rounds 0 to 7.
pub open spec fn rc_internal_0() -> Seq<nat> {
    seq![
        5624865188680173294191042415227598609140934495743721047183803859030618890703nat,
        8228252753786907198149068514193371173033070694924002912950645971088002709521nat,
        17586714789554691446538331362711502394998837215506284064347036653995353304693nat,
        12985198716830497423350597750558817467658937953000235442251074063454897365701nat,
        13480076116139680784838493959937969792577589073830107110893279354229821035984nat,
        480609231761423388761863647137314056373740727639536352979673303078459561332nat,
        19503345496799249258956440299354839375920540225688429628121751361906635419276nat,
        16837818502122887883669221005435922946567532037624537243846974433811447595173nat,
    ]
}

/// The constants of the internal rounds 8 to 15.
pub open spec fn rc_internal_1() -> Seq<nat> {
    seq![
        5492108497278641078569490709794391352213168666744080628008171695469579703581nat,
        11365311159988448419785032079155356000691294261495515880484003277443744617083nat,
        13876891705632851072613751905778242936713392247975808888614530203269491723653nat,
        10660388389107698747692475159023710744797290186015856503629656779989214850043nat,
        18876318870401623474401728758498150977988613254023317877612912724282285739292nat,
        15543349138237018307536452195922365893694804703361435879256942490123776892424nat,
        2839988449157209999638903652853828318645773519300826410959678570041742458201nat,
        7566039810305694135184226097163626060317478635973510706368412858136696413063nat,
    ]
}

/// The constants of the internal rounds 16 to 23.
pub open spec fn rc_internal_2() -> Seq<nat> {
    seq![
        6344830340705033582410486810600848473125256338903726340728639711688240744220nat,
        12475357769019880256619207099578191648078162511547701737481203260317463892731nat,
        13337401254840718303633782478677852514218549070508887338718446132574012311307nat,
        21161869193849404954234950798647336336709035097706159414187214758702055364571nat,
        20671052961616073313397254362345395594858011165315285344464242404604146448678nat,
        2772189387845778213446441819361180378678387127454165972767013098872140927416nat,
        3339032002224218054945450150550795352855387702520990006196627537441898997147nat,
        14919705931281848425960108279746818433850049439186607267862213649460469542157nat,
    ]
}

/// The constants of the internal rounds 24 to 31.
pub open spec fn rc_internal_3() -> Seq<nat> {
    seq![
        17056699976793486403099510941807022658662936611123286147276760381688934087770nat,
        16144580075268719403964467603213740327573316872987042261854346306108421013323nat,
        15582343953927413680541644067712456296539774919658221087452235772880573393376nat,
        17528510080741946423534916423363640132610906812668323263058626230135522155749nat,
        3190600034239022251529646836642735752388641846393941612827022280601486805721nat,
        8463814172152682468446984305780323150741498069701538916468821815030498611418nat,
        16533435971270903741871235576178437313873873358463959658178441562520661055273nat,
        11845696835505436397913764735273748291716405946246049903478361223369666046634nat,
    ]
}

/// The constants of the internal rounds 32 to 39.
pub open spec fn rc_internal_4() -> Seq<nat> {
    seq![
        18391057370973634202531308463652130631065370546571735004701144829951670507215nat,
        262537877325812689820791215463881982531707709719292538608229687240243203710nat,
        2187234489894387585309965540987639130975753519805550941279098789852422770021nat,
        19189656350920455659006418422409390013967064310525314160026356916172976152967nat,
        15839474183930359560478122372067744245080413846070743460407578046890458719219nat,
        1805019124769763805045852541831585930225376844141668951787801647576910524592nat,
        323592203814803486950280155834638828455175703393817797003361354810251742052nat,
        9780393509796825017346015868945480913627956475147371732521398519483580624282nat,
    ]
}

/// The constants of the internal rounds 40 to 47.
pub open spec fn rc_internal_5() -> Seq<nat> {
    seq![
        14009429785059642386335012561867511048847749030947687313594053997432177705759nat,
        13749550162460745037234826077137388777330401847577727796245150843898019635981nat,
        19497187499283431845443758879472819384797584633472792651343926414232528405311nat,
        3708428802547661961864524194762556064568867603968214870300574294082023305587nat,
        1339414413482882567499652761996854155383863472782829777976929310155400981782nat,
        6396261245879814100794661157306877072718690153118140891315137894471052482309nat,
        2069661495404347929962833138824526893650803079024564477269192079629046031674nat,
        15793521554502133342917616035884588152451122589545915605459159078589855944361nat,
    ]
}

/// The constants of the internal rounds 48 to 55.
pub open spec fn rc_internal_6() -> Seq<nat> {
    seq![
        17053424498357819626596285492499512504457128907932827007302385782133229252374nat,
        13658536470391360399708067455536748955260723760813498481671323619545320978896nat,
        21546095668130239633971575351786704948662094117932406102037724221634677838565nat,
        21411726238386979516934941789127061362496195649331822900487557574597304399109nat,
        1944776378988765673004063363506638781964264107780425928778257145151172817981nat,
        15590719714223718537172639598316570285163081746016049278954513732528516468773nat,
        1351266421179051765004709939353170430290500926943038391678843253157009556309nat,
        6772476224477167317130064764757502335545080109882028900432703947986275397548nat,
    ]
}

/// The constants of the internal rounds.
pub open spec fn rc_internal() -> Seq<nat> {
    rc_internal_0() + rc_internal_1() + rc_internal_2() + rc_internal_3() + rc_internal_4() + rc_internal_5() + rc_internal_6()
}

/// The tables of the instance.
pub open spec fn parameters() -> Parameters {
    Parameters { diag_m1: diag_m1(), rc_external: rc_external(), rc_internal: rc_internal() }
}

fn diag_table() -> (r: [Fq; 4])
    ensures
        all_wf(r@),
        values(r@) == diag_m1(),
{
    let c0 = element(0x78b3c4df7b603c75, 0xdd54552f4a97b9e3, 0xc9ceb940f70388e9, 0x300af8e86f112b7e);
    assert(c0.wf() && c0@ == 7626475329478847982857743246276194948757851985510858890691733676098590062311nat) by (nonlinear_arith)
        requires
            c0.limbs@ == seq![0x78b3c4df7b603c75u64, 0xdd54552f4a97b9e3u64, 0xc9ceb940f70388e9u64, 0x300af8e86f112b7eu64],
    {
        reveal(modulus);
    }
    let c1 = element(0x00deb14139b1ef67, 0xccb2bdefcca2343d, 0x6c43a052dbe2f558, 0x1063a869506e775c);
    assert(c1.wf() && c1@ == 5498568565063849786384470689962419967523752476452646391422913716315471115275nat) by (nonlinear_arith)
        requires
            c1.limbs@ == seq![0x00deb14139b1ef67u64, 0xccb2bdefcca2343du64, 0x6c43a052dbe2f558u64, 0x1063a869506e775cu64],
    {
        reveal(modulus);
    }
    let c2 = element(0x94eea894378e2f93, 0x93faf7c07882666b, 0x21288cc59995cfdc, 0x027e7283b9b0b7d3);
    assert(c2.wf() && c2@ == 148936322117705719734052984176402258788283488576388928671173547788498414613nat) by (nonlinear_arith)
        requires
            c2.limbs@ == seq![0x94eea894378e2f93u64, 0x93faf7c07882666bu64, 0x21288cc59995cfdcu64, 0x027e7283b9b0b7d3u64],
    {
        reveal(modulus);
    }
    let c3 = element(0xb35e450fba986fc1, 0x926ccb787560ef38, 0x1e1e2685895114e8, 0x2841f4314cbcead3);
    assert(c3.wf() && c3@ == 15456385653678559339152734484033356164266089951521103188900320352052358038155nat) by (nonlinear_arith)
        requires
            c3.limbs@ == seq![0xb35e450fba986fc1u64, 0x926ccb787560ef38u64, 0x1e1e2685895114e8u64, 0x2841f4314cbcead3u64],
    {
        reveal(modulus);
    }
    let r = [
        c0, c1, c2, c3,
    ];
    assert(values(r@) =~= diag_m1());
    r
}

fn external_row_0() -> (r: [Fq; 4])
    ensures
        all_wf(r@),
        values(r@) == rc_external_0(),
{
    let c0 = element(0x40e29857eccba526, 0x78b5d11f628bb63c, 0x90a91f8124d71c1d, 0x22b90b99257c701f);
    assert(c0.wf() && c0@ == 11633431549750490989983886834189948010834808234699737327785600195936805266405nat) by (nonlinear_arith)
        requires
            c0.limbs@ == seq![0x40e29857eccba526u64, 0x78b5d11f628bb63cu64, 0x90a91f8124d71c1du64, 0x22b90b99257c701fu64],
    {
        reveal(modulus);
    }
    let c1 = element(0xdda103bcd5e88168, 0xcadec275563908df, 0xcb42faa49bda666a, 0x12c1e60e14878465);
    assert(c1.wf() && c1@ == 17353750182810071758476407404624088842693631054828301270920107619055744005334nat) by (nonlinear_arith)
        requires
            c1.limbs@ == seq![0xdda103bcd5e88168u64, 0xcadec275563908dfu64, 0xcb42faa49bda666au64, 0x12c1e60e14878465u64],
    {
        reveal(modulus);
    }
    let c2 = element(0xe2ee3f59de1800c2, 0xc7979d60539090ba, 0xb17490108efd09c7, 0x157ae4cd6c889238);
    assert(c2.wf() && c2@ == 11575173631114898451293296430061690731976535592475236587664058405912382527658nat) by (nonlinear_arith)
        requires
            c2.limbs@ == seq![0xe2ee3f59de1800c2u64, 0xc7979d60539090bau64, 0xb17490108efd09c7u64, 0x157ae4cd6c889238u64],
    {
        reveal(modulus);
    }
    let c3 = element(0x8d47060cfdf35e56, 0x24d3c6c56012e0bb, 0x23e529e2d9c7f211, 0x0ca313c0e7feeb7c);
    assert(c3.wf() && c3@ == 9724643380371653925020965751082872123058642683375812487991079305063678725624nat) by (nonlinear_arith)
        requires
            c3.limbs@ == seq![0x8d47060cfdf35e56u64, 0x24d3c6c56012e0bbu64, 0x23e529e2d9c7f211u64, 0x0ca313c0e7feeb7cu64],
    {
        reveal(modulus);
    }
    let r = [
        c0, c1, c2, c3,
    ];
    assert(values(r@) =~= rc_external_0());
    r
}

fn external_row_1() -> (r: [Fq; 4])
    ensures
        all_wf(r@),
        values(r@) == rc_external_1(),
{
    let c0 = element(0x969ae5874ec24b7c, 0x178d4318d4b3aa33, 0x6c88dcc609ed64f8, 0x2f010ac693dc51cf);
    assert(c0.wf() && c0@ == 20936725237749945635418633443468987188819556232926135747685274666391889856770nat) by (nonlinear_arith)
        requires
            c0.limbs@ == seq![0x969ae5874ec24b7cu64, 0x178d4318d4b3aa33u64, 0x6c88dcc609ed64f8u64, 0x2f010ac693dc51cfu64],
    {
        reveal(modulus);
    }
    let c1 = element(0x57fb28a4e65e43e8, 0x8879374e40bb2e20, 0x2edbd9642db3a00b, 0x03519d1e42f98e5e);
    assert(c1.wf() && c1@ == 6427758822462294912934022562310355233516927282963039741999349770315205779230nat) by (nonlinear_arith)
        requires
            c1.limbs@ == seq![0x57fb28a4e65e43e8u64, 0x8879374e40bb2e20u64, 0x2edbd9642db3a00bu64, 0x03519d1e42f98e5eu64],
    {
        reveal(modulus);
    }
    let c2 = element(0x6cd497820ea1bdea, 0x7547fcc6a94b2b4d, 0xd170eabdd0b9a60b, 0x2d4d4875bba571b3);
    assert(c2.wf() && c2@ == 16782979953202249973699352594809882974187694538612412531558950864304931387798nat) by (nonlinear_arith)
        requires
            c2.limbs@ == seq![0x6cd497820ea1bdeau64, 0x7547fcc6a94b2b4du64, 0xd170eabdd0b9a60bu64, 0x2d4d4875bba571b3u64],
    {
        reveal(modulus);
    }
    let c3 = element(0x6ef12da5bec195b2, 0x1949053b40632693, 0x52a07adc23aaa26c, 0x2462f2ed9e08bb84);
    assert(c3.wf() && c3@ == 8979171037234948998646722737761679613767384188475887657669871981433930833742nat) by (nonlinear_arith)
        requires
            c3.limbs@ == seq![0x6ef12da5bec195b2u64, 0x1949053b40632693u64, 0x52a07adc23aaa26cu64, 0x2462f2ed9e08bb84u64],
    {
        reveal(modulus);
    }
    let r = [
        c0, c1, c2, c3,
    ];
    assert(values(r@) =~= rc_external_1());
    r
}

fn external_row_2() -> (r: [Fq; 4])
    ensures
        all_wf(r@),
        values(r@) == rc_external_2(),
{
    let c0 = element(0x86b215d7eed56c26, 0x8e8a775ab44e8536, 0x4b28315db24328ac, 0x2284e6859b91a22b);
    assert(c0.wf() && c0@ == 5428827536651017352121626533783677797977876323745420084354839999137145767736nat) by (nonlinear_arith)
        requires
            c0.limbs@ == seq![0x86b215d7eed56c26u64, 0x8e8a775ab44e8536u64, 0x4b28315db24328acu64, 0x2284e6859b91a22bu64],
    {
        reveal(modulus);
    }
    let c1 = element(0x24435d7bbcecf683, 0x30558031784b101a, 0x8152ba72043ca93a, 0x2ef0fea092a1bf2f);
    assert(c1.wf() && c1@ == 507241738797493565802569310165979445570507129759637903167193063764556368390nat) by (nonlinear_arith)
        requires
            c1.limbs@ == seq![0x24435d7bbcecf683u64, 0x30558031784b101au64, 0x8152ba72043ca93au64, 0x2ef0fea092a1bf2fu64],
    {
        reveal(modulus);
    }
    let c2 = element(0x31f7ebe8ea71df23, 0x5a40c44d8b396ad0, 0x12103e68c9964844, 0x2fbf0a0711796f09);
    assert(c2.wf() && c2@ == 6711578168107599474498163409443059675558516582274824463959700553865920673097nat) by (nonlinear_arith)
        requires
            c2.limbs@ == seq![0x31f7ebe8ea71df23u64, 0x5a40c44d8b396ad0u64, 0x12103e68c9964844u64, 0x2fbf0a0711796f09u64],
    {
        reveal(modulus);
    }
    let c3 = element(0xd171b165b9a474d2, 0xde9cc2290d05e663, 0xaaa87c63209d7a7a, 0x138033c1c13594ca);
    assert(c3.wf() && c3@ == 2197359304646916921018958991647650011119043556688567376178243393652789311643nat) by (nonlinear_arith)
        requires
            c3.limbs@ == seq![0xd171b165b9a474d2u64, 0xde9cc2290d05e663u64, 0xaaa87c63209d7a7au64, 0x138033c1c13594cau64],
    {
        reveal(modulus);
    }
    let r = [
        c0, c1, c2, c3,
    ];
    assert(values(r@) =~= rc_external_2());
    r
}

fn external_row_3() -> (r: [Fq; 4])
    ensures
        all_wf(r@),
        values(r@) == rc_external_3(),
{
    let c0 = element(0x7bfd9fcbd4ed1036, 0x5d413eaa832eba40, 0xb509d471e9b81cf4, 0x1287cef711f48909);
    assert(c0.wf() && c0@ == 4634703622846121403803831560584049007806112989824652272428991253572845447400nat) by (nonlinear_arith)
        requires
            c0.limbs@ == seq![0x7bfd9fcbd4ed1036u64, 0x5d413eaa832eba40u64, 0xb509d471e9b81cf4u64, 0x1287cef711f48909u64],
    {
        reveal(modulus);
    }
    let c1 = element(0xaa8460cf946b6f1f, 0xd383ed881df9301d, 0x13dab19464f23a61, 0x03edc8f24d94f496);
    assert(c1.wf() && c1@ == 17008376818199175111793852447685303011746023680921106348278379453039148937791nat) by (nonlinear_arith)
        requires
            c1.limbs@ == seq![0xaa8460cf946b6f1fu64, 0xd383ed881df9301du64, 0x13dab19464f23a61u64, 0x03edc8f24d94f496u64],
    {
        reveal(modulus);
    }
    let c2 = element(0x8fb0a2baec4a0545, 0x62950a986fa7e269, 0x8b2e63ef08420ccb, 0x24357c1c0ff8ad46);
    assert(c2.wf() && c2@ == 18430784755956196942937899353653692286521408688385681805132578732731487278753nat) by (nonlinear_arith)
        requires
            c2.limbs@ == seq![0x8fb0a2baec4a0545u64, 0x62950a986fa7e269u64, 0x8b2e63ef08420ccbu64, 0x24357c1c0ff8ad46u64],
    {
        reveal(modulus);
    }
    let c3 = element(0xebc3984647d708de, 0xfa8876a528054f45, 0x529aa21b353025ae, 0x11e5fb7b548a5daa);
    assert(c3.wf() && c3@ == 4573768376486344895797915946239137669624900197544620153250805961657870918727nat) by (nonlinear_arith)
        requires
            c3.limbs@ == seq![0xebc3984647d708deu64, 0xfa8876a528054f45u64, 0x529aa21b353025aeu64, 0x11e5fb7b548a5daau64],
    {
        reveal(modulus);
    }
    let r = [
        c0, c1, c2, c3,
    ];
    assert(values(r@) =~= rc_external_3());
    r
}

fn external_row_4() -> (r: [Fq; 4])
    ensures
        all_wf(r@),
        values(r@) == rc_external_4(),
{
    let c0 = element(0xd452149f1a7623ba, 0x13d73472905865d9, 0x68860941a82dff72, 0x00f33f4676757a07);
    assert(c0.wf() && c0@ == 10670120969725161535937685539136065944959698664551200616467222887025111751992nat) by (nonlinear_arith)
        requires
            c0.limbs@ == seq![0xd452149f1a7623bau64, 0x13d73472905865d9u64, 0x68860941a82dff72u64, 0x00f33f4676757a07u64],
    {
        reveal(modulus);
    }
    let c1 = element(0x0e60a44a6d294f41, 0x03b13324ddc4baa0, 0x4c7ce58cc39ab341, 0x139be6cb2abe19c0);
    assert(c1.wf() && c1@ == 4731853626374224678749618809759140702342195350742653173378450474772131006181nat) by (nonlinear_arith)
        requires
            c1.limbs@ == seq![0x0e60a44a6d294f41u64, 0x03b13324ddc4baa0u64, 0x4c7ce58cc39ab341u64, 0x139be6cb2abe19c0u64],
    {
        reveal(modulus);
    }
    let c2 = element(0x9ee46be37fa5c783, 0x4b80d6e92fa0605d, 0xe18d39eaa0b58710, 0x019935cf03fe6d3b);
    assert(c2.wf() && c2@ == 14473527495914528513885847341981310373531349450901830749157165104135412062812nat) by (nonlinear_arith)
        requires
            c2.limbs@ == seq![0x9ee46be37fa5c783u64, 0x4b80d6e92fa0605du64, 0xe18d39eaa0b58710u64, 0x019935cf03fe6d3bu64],
    {
        reveal(modulus);
    }
    let c3 = element(0xa11eecbd6f646bef, 0xdf805be13d0c2ba1, 0xb1843fb18f8d6723, 0x0ecac0e06c90fbd4);
    assert(c3.wf() && c3@ == 16937191362061486658876740597821783333355021670608822932942683228741190786143nat) by (nonlinear_arith)
        requires
            c3.limbs@ == seq![0xa11eecbd6f646befu64, 0xdf805be13d0c2ba1u64, 0xb1843fb18f8d6723u64, 0x0ecac0e06c90fbd4u64],
    {
        reveal(modulus);
    }
    let r = [
        c0, c1, c2, c3,
    ];
    assert(values(r@) =~= rc_external_4());
    r
}

fn external_row_5() -> (r: [Fq; 4])
    ensures
        all_wf(r@),
        values(r@) == rc_external_5(),
{
    let c0 = element(0x20ca3789db7f08aa, 0x8d4280081bb2f0df, 0x37f8a0a772d173e5, 0x2704fea2f81ae93b);
    assert(c0.wf() && c0@ == 5656559696428674390125424316117443507583679061659043998559560535270557939546nat) by (nonlinear_arith)
        requires
            c0.limbs@ == seq![0x20ca3789db7f08aau64, 0x8d4280081bb2f0dfu64, 0x37f8a0a772d173e5u64, 0x2704fea2f81ae93bu64],
    {
        reveal(modulus);
    }
    let c1 = element(0x0b57a210d5ab61aa, 0xb5bcedca8189a1ea, 0x1cdbbf1ab293e0ac, 0x100b4344f9ed48ae);
    assert(c1.wf() && c1@ == 8897648276515725841133578021896617755369443750194849587616503841335248902806nat) by (nonlinear_arith)
        requires
            c1.limbs@ == seq![0x0b57a210d5ab61aau64, 0xb5bcedca8189a1eau64, 0x1cdbbf1ab293e0acu64, 0x100b4344f9ed48aeu64],
    {
        reveal(modulus);
    }
    let c2 = element(0x907e5f4a9c057fc4, 0x575a1e1729d2396b, 0x2f81eb61b02a0d47, 0x201c9d0d354d25f3);
    assert(c2.wf() && c2@ == 14938684446722672719637788054570691068799510611164812175626676768545923371470nat) by (nonlinear_arith)
        requires
            c2.limbs@ == seq![0x907e5f4a9c057fc4u64, 0x575a1e1729d2396bu64, 0x2f81eb61b02a0d47u64, 0x201c9d0d354d25f3u64],
    {
        reveal(modulus);
    }
    let c3 = element(0x6e0d1e92b19775e8, 0x1b0ff212c85487ae, 0x77fa05e5ed730bb5, 0x0da570e83ab6b8d0);
    assert(c3.wf() && c3@ == 15284149043690546115252102390417391226617211133644099356880071475803043461465nat) by (nonlinear_arith)
        requires
            c3.limbs@ == seq![0x6e0d1e92b19775e8u64, 0x1b0ff212c85487aeu64, 0x77fa05e5ed730bb5u64, 0x0da570e83ab6b8d0u64],
    {
        reveal(modulus);
    }
    let r = [
        c0, c1, c2, c3,
    ];
    assert(values(r@) =~= rc_external_5());
    r
}

fn external_row_6() -> (r: [Fq; 4])
    ensures
        all_wf(r@),
        values(r@) == rc_external_6(),
{
    let c0 = element(0xe33228d2d96b8f30, 0xb89a3bb8fb9be93a, 0x35e9eca0bee565b1, 0x273df6b0ae156020);
    assert(c0.wf() && c0@ == 2623479025068612775740107497276979457946709347831661908218182874823658838107nat) by (nonlinear_arith)
        requires
            c0.limbs@ == seq![0xe33228d2d96b8f30u64, 0xb89a3bb8fb9be93au64, 0x35e9eca0bee565b1u64, 0x273df6b0ae156020u64],
    {
        reveal(modulus);
    }
    let c1 = element(0xa436a2acdb5ac551, 0x8514ac3b41c606e4, 0xc28036d7cdf04c60, 0x1ea071117eb66e66);
    assert(c1.wf() && c1@ == 6809791961761836061129379546794905411734858375517368211894790874813684813988nat) by (nonlinear_arith)
        requires
            c1.limbs@ == seq![0xa436a2acdb5ac551u64, 0x8514ac3b41c606e4u64, 0xc28036d7cdf04c60u64, 0x1ea071117eb66e66u64],
    {
        reveal(modulus);
    }
    let c2 = element(0x6126235d108821f4, 0x4a7765cfee75f731, 0x743ed0ff07674e14, 0x05925bb80a3cc48c);
    assert(c2.wf() && c2@ == 2417620338751920563196799065781703780495622795713803712576790485412779971775nat) by (nonlinear_arith)
        requires
            c2.limbs@ == seq![0x6126235d108821f4u64, 0x4a7765cfee75f731u64, 0x743ed0ff07674e14u64, 0x05925bb80a3cc48cu64],
    {
        reveal(modulus);
    }
    let c3 = element(0x7a92010e5b2e74a1, 0xfee649f03b0684db, 0x7aa7ccf81a3caab2, 0x23720c2cfdfbc79d);
    assert(c3.wf() && c3@ == 4445143310792944321746901285176579692343442786777464604312772017806735512661nat) by (nonlinear_arith)
        requires
            c3.limbs@ == seq![0x7a92010e5b2e74a1u64, 0xfee649f03b0684dbu64, 0x7aa7ccf81a3caab2u64, 0x23720c2cfdfbc79du64],
    {
        reveal(modulus);
    }
    let r = [
        c0, c1, c2, c3,
    ];
    assert(values(r@) =~= rc_external_6());
    r
}

fn external_row_7() -> (r: [Fq; 4])
    ensures
        all_wf(r@),
        values(r@) == rc_external_7(),
{
    let c0 = element(0x460a85496e304e37, 0xdd8f527562040055, 0x40a70979fd5a7579, 0x1f03fbf1087a3e1c);
    assert(c0.wf() && c0@ == 1429019233589939118995503267516676481141938536269008901607126781291273208629nat) by (nonlinear_arith)
        requires
            c0.limbs@ == seq![0x460a85496e304e37u64, 0xdd8f527562040055u64, 0x40a70979fd5a7579u64, 0x1f03fbf1087a3e1cu64],
    {
        reveal(modulus);
    }
    let c1 = element(0x0b43e0bf81c186ed, 0x47ce7c0961079afb, 0xb9f3357e2e55217d, 0x17e4fd8d6775a696);
    assert(c1.wf() && c1@ == 19874283200702583165110559932895904979843482162236139561356679724680604144459nat) by (nonlinear_arith)
        requires
            c1.limbs@ == seq![0x0b43e0bf81c186edu64, 0x47ce7c0961079afbu64, 0xb9f3357e2e55217du64, 0x17e4fd8d6775a696u64],
    {
        reveal(modulus);
    }
    let c2 = element(0xb74d133c633b1599, 0x4bf76b0fba2d94e2, 0xfec7cce4c5cd67f8, 0x183bceaeea7f1aaa);
    assert(c2.wf() && c2@ == 13426632171723830006915194799390005513190035492503509233177687891041405113055nat) by (nonlinear_arith)
        requires
            c2.limbs@ == seq![0xb74d133c633b1599u64, 0x4bf76b0fba2d94e2u64, 0xfec7cce4c5cd67f8u64, 0x183bceaeea7f1aaau64],
    {
        reveal(modulus);
    }
    let c3 = element(0x62a251f58bfc0bd8, 0xa47572f6ebc5885b, 0x37c60ff8efcf2b6d, 0x1fd8d931dc1b5f33);
    assert(c3.wf() && c3@ == 10582332261829184460912611488470654685922576576939233092337240630493625631748nat) by (nonlinear_arith)
        requires
            c3.limbs@ == seq![0x62a251f58bfc0bd8u64, 0xa47572f6ebc5885bu64, 0x37c60ff8efcf2b6du64, 0x1fd8d931dc1b5f33u64],
    {
        reveal(modulus);
    }
    let r = [
        c0, c1, c2, c3,
    ];
    assert(values(r@) =~= rc_external_7());
    r
}

fn internal_block_0() -> (r: [Fq; 8])
    ensures
        all_wf(r@),
        values(r@) == rc_internal_0(),
{
    let c0 = element(0x1c447b0131825829, 0x6eea85c396cfd279, 0x906fa66e44792b70, 0x0f417b2b1192fc58);
    assert(c0.wf() && c0@ == 5624865188680173294191042415227598609140934495743721047183803859030618890703nat) by (nonlinear_arith)
        requires
            c0.limbs@ == seq![0x1c447b0131825829u64, 0x6eea85c396cfd279u64, 0x906fa66e44792b70u64, 0x0f417b2b1192fc58u64],
    {
        reveal(modulus);
    }
    let c1 = element(0x893dc44ff4ab8c3d, 0xdc5162ae7480b4d7, 0xd2d2263cef2ce577, 0x2bff5bd4cf84da5b);
    assert(c1.wf() && c1@ == 8228252753786907198149068514193371173033070694924002912950645971088002709521nat) by (nonlinear_arith)
        requires
            c1.limbs@ == seq![0x893dc44ff4ab8c3du64, 0xdc5162ae7480b4d7u64, 0xd2d2263cef2ce577u64, 0x2bff5bd4cf84da5bu64],
    {
        reveal(modulus);
    }
    let c2 = element(0xb77ac980d5b4b49b, 0x333a038690498325, 0x7d075bd47648701e, 0x14e2b4d3be83b2ac);
    assert(c2.wf() && c2@ == 17586714789554691446538331362711502394998837215506284064347036653995353304693nat) by (nonlinear_arith)
        requires
            c2.limbs@ == seq![0xb77ac980d5b4b49bu64, 0x333a038690498325u64, 0x7d075bd47648701eu64, 0x14e2b4d3be83b2acu64],
    {
        reveal(modulus);
    }
    let c3 = element(0x529b26c9e1e7fee7, 0xe3b9ce82471f6c16, 0x7b784e18fc148e9a, 0x0af58ae3a7d121ad);
    assert(c3.wf() && c3@ == 12985198716830497423350597750558817467658937953000235442251074063454897365701nat) by (nonlinear_arith)
        requires
            c3.limbs@ == seq![0x529b26c9e1e7fee7u64, 0xe3b9ce82471f6c16u64, 0x7b784e18fc148e9au64, 0x0af58ae3a7d121adu64],
    {
        reveal(modulus);
    }
    let c4 = element(0xf8d1c651163db662, 0x1e3bceb597676b5a, 0x2e280d1a469bd269, 0x1cc9d2eaf4da683b);
    assert(c4.wf() && c4@ == 13480076116139680784838493959937969792577589073830107110893279354229821035984nat) by (nonlinear_arith)
        requires
            c4.limbs@ == seq![0xf8d1c651163db662u64, 0x1e3bceb597676b5au64, 0x2e280d1a469bd269u64, 0x1cc9d2eaf4da683bu64],
    {
        reveal(modulus);
    }
    let c5 = element(0x284f1e6a5e8c3243, 0xdf6e2c5fa443c438, 0xa141ac6c13990c9c, 0x2406d65ed9963ebf);
    assert(c5.wf() && c5@ == 480609231761423388761863647137314056373740727639536352979673303078459561332nat) by (nonlinear_arith)
        requires
            c5.limbs@ == seq![0x284f1e6a5e8c3243u64, 0xdf6e2c5fa443c438u64, 0xa141ac6c13990c9cu64, 0x2406d65ed9963ebfu64],
    {
        reveal(modulus);
    }
    let c6 = element(0x833da6aed5e8b643, 0xf6e1ac68d94bbf99, 0x92e1ab49bac7591f, 0x1f14ec7cf779855e);
    assert(c6.wf() && c6@ == 19503345496799249258956440299354839375920540225688429628121751361906635419276nat) by (nonlinear_arith)
        requires
            c6.limbs@ == seq![0x833da6aed5e8b643u64, 0xf6e1ac68d94bbf99u64, 0x92e1ab49bac7591fu64, 0x1f14ec7cf779855eu64],
    {
        reveal(modulus);
    }
    let c7 = element(0x1f360ba6b2dbe89c, 0x39a6bfcefa7aa570, 0x7f9114a8abd3c437, 0x241559c0a38ff005);
    assert(c7.wf() && c7@ == 16837818502122887883669221005435922946567532037624537243846974433811447595173nat) by (nonlinear_arith)
        requires
            c7.limbs@ == seq![0x1f360ba6b2dbe89cu64, 0x39a6bfcefa7aa570u64, 0x7f9114a8abd3c437u64, 0x241559c0a38ff005u64],
    {
        reveal(modulus);
    }
    let r = [
        c0, c1, c2, c3, c4, c5, c6, c7,
    ];
    assert(values(r@) =~= rc_internal_0());
    r
}

fn internal_block_1() -> (r: [Fq; 8])
    ensures
        all_wf(r@),
        values(r@) == rc_internal_1(),
{
    let c0 = element(0x82f0f015e32b0fa5, 0x15b14571a9827bdf, 0xb77fbead604b82fb, 0x084368258f1bd0dd);
    assert(c0.wf() && c0@ == 5492108497278641078569490709794391352213168666744080628008171695469579703581nat) by (nonlinear_arith)
        requires
            c0.limbs@ == seq![0x82f0f015e32b0fa5u64, 0x15b14571a9827bdfu64, 0xb77fbead604b82fbu64, 0x084368258f1bd0ddu64],
    {
        reveal(modulus);
    }
    let c1 = element(0x6e0151e98341eaab, 0x347e8c0f39d2ae2b, 0x2f6a4f01fd8e7354, 0x1224728eae4780c7);
    assert(c1.wf() && c1@ == 11365311159988448419785032079155356000691294261495515880484003277443744617083nat) by (nonlinear_arith)
        requires
            c1.limbs@ == seq![0x6e0151e98341eaabu64, 0x347e8c0f39d2ae2bu64, 0x2f6a4f01fd8e7354u64, 0x1224728eae4780c7u64],
    {
        reveal(modulus);
    }
    let c2 = element(0xa64a59e07277da93, 0xec9ffe497e750319, 0xf8de0d292fd81230, 0x200ba0070e4cf7e7);
    assert(c2.wf() && c2@ == 13876891705632851072613751905778242936713392247975808888614530203269491723653nat) by (nonlinear_arith)
        requires
            c2.limbs@ == seq![0xa64a59e07277da93u64, 0xec9ffe497e750319u64, 0xf8de0d292fd81230u64, 0x200ba0070e4cf7e7u64],
    {
        reveal(modulus);
    }
    let c3 = element(0x3eee8ca147f74c1e, 0xb459e1c13d394847, 0xad3a506f72dfc6e9, 0x0024a1a4a98cdf30);
    assert(c3.wf() && c3@ == 10660388389107698747692475159023710744797290186015856503629656779989214850043nat) by (nonlinear_arith)
        requires
            c3.limbs@ == seq![0x3eee8ca147f74c1eu64, 0xb459e1c13d394847u64, 0xad3a506f72dfc6e9u64, 0x0024a1a4a98cdf30u64],
    {
        reveal(modulus);
    }
    let c4 = element(0x4677744f22ba290c, 0x9665c3069828d067, 0x47a5ab4a08482095, 0x050856d34a7b53a1);
    assert(c4.wf() && c4@ == 18876318870401623474401728758498150977988613254023317877612912724282285739292nat) by (nonlinear_arith)
        requires
            c4.limbs@ == seq![0x4677744f22ba290cu64, 0x9665c3069828d067u64, 0x47a5ab4a08482095u64, 0x050856d34a7b53a1u64],
    {
        reveal(modulus);
    }
    let c5 = element(0xe9ac990036447fd5, 0x67e1d967ff728f98, 0x520db222d8f9b85b, 0x300d753949da28d0);
    assert(c5.wf() && c5@ == 15543349138237018307536452195922365893694804703361435879256942490123776892424nat) by (nonlinear_arith)
        requires
            c5.limbs@ == seq![0xe9ac990036447fd5u64, 0x67e1d967ff728f98u64, 0x520db222d8f9b85bu64, 0x300d753949da28d0u64],
    {
        reveal(modulus);
    }
    let c6 = element(0xe0a4d3db3031c219, 0xbdfc328b9599d375, 0x11f23cd7fe507de4, 0x1bf0b2f3b0ae16c8);
    assert(c6.wf() && c6@ == 2839988449157209999638903652853828318645773519300826410959678570041742458201nat) by (nonlinear_arith)
        requires
            c6.limbs@ == seq![0xe0a4d3db3031c219u64, 0xbdfc328b9599d375u64, 0x11f23cd7fe507de4u64, 0x1bf0b2f3b0ae16c8u64],
    {
        reveal(modulus);
    }
    let c7 = element(0x18018546eeba2623, 0x1de71123707f1b9c, 0x7f6c0e2ad000f8e9, 0x28f46b322d82057f);
    assert(c7.wf() && c7@ == 7566039810305694135184226097163626060317478635973510706368412858136696413063nat) by (nonlinear_arith)
        requires
            c7.limbs@ == seq![0x18018546eeba2623u64, 0x1de71123707f1b9cu64, 0x7f6c0e2ad000f8e9u64, 0x28f46b322d82057fu64],
    {
        reveal(modulus);
    }
    let r = [
        c0, c1, c2, c3, c4, c5, c6, c7,
    ];
    assert(values(r@) =~= rc_internal_1());
    r
}

fn internal_block_2() -> (r: [Fq; 8])
    ensures
        all_wf(r@),
        values(r@) == rc_internal_2(),
{
    let c0 = element(0x3ac593da4e5db6eb, 0x3ff4bba0193a3b2d, 0xe0ad26ec69346ef2, 0x24849ad2c138914e);
    assert(c0.wf() && c0@ == 6344830340705033582410486810600848473125256338903726340728639711688240744220nat) by (nonlinear_arith)
        requires
            c0.limbs@ == seq![0x3ac593da4e5db6ebu64, 0x3ff4bba0193a3b2du64, 0xe0ad26ec69346ef2u64, 0x24849ad2c138914eu64],
    {
        reveal(modulus);
    }
    let c1 = element(0xa68ceacc9a188251, 0x905a4a607ab50758, 0xdeba6d539f998afa, 0x1fff49f7df96654f);
    assert(c1.wf() && c1@ == 12475357769019880256619207099578191648078162511547701737481203260317463892731nat) by (nonlinear_arith)
        requires
            c1.limbs@ == seq![0xa68ceacc9a188251u64, 0x905a4a607ab50758u64, 0xdeba6d539f998afau64, 0x1fff49f7df96654fu64],
    {
        reveal(modulus);
    }
    let c2 = element(0xc067c30e7cc3a431, 0x34d758f9cd522f83, 0x3435beccd217edeb, 0x2a89e5139fbdf039);
    assert(c2.wf() && c2@ == 13337401254840718303633782478677852514218549070508887338718446132574012311307nat) by (nonlinear_arith)
        requires
            c2.limbs@ == seq![0xc067c30e7cc3a431u64, 0x34d758f9cd522f83u64, 0x3435beccd217edebu64, 0x2a89e5139fbdf039u64],
    {
        reveal(modulus);
    }
    let c3 = element(0xd5a6847c60a8f7cc, 0xd5aff503c7ba7883, 0x8b2bfd2ad28ddd20, 0x101835888a279fc0);
    assert(c3.wf() && c3@ == 21161869193849404954234950798647336336709035097706159414187214758702055364571nat) by (nonlinear_arith)
        requires
            c3.limbs@ == seq![0xd5a6847c60a8f7ccu64, 0xd5aff503c7ba7883u64, 0x8b2bfd2ad28ddd20u64, 0x101835888a279fc0u64],
    {
        reveal(modulus);
    }
    let c4 = element(0x50fa7503e3eb3735, 0xd8495c79cd5e9211, 0x7b7e2a5040c3544b, 0x197e6d90a94415a4);
    assert(c4.wf() && c4@ == 20671052961616073313397254362345395594858011165315285344464242404604146448678nat) by (nonlinear_arith)
        requires
            c4.limbs@ == seq![0x50fa7503e3eb3735u64, 0xd8495c79cd5e9211u64, 0x7b7e2a5040c3544bu64, 0x197e6d90a94415a4u64],
    {
        reveal(modulus);
    }
    let c5 = element(0x6ea1d22532ef2471, 0x4e96177082af0ac7, 0xed2f1dfb1189f2bb, 0x27fbb36a7bd9b353);
    assert(c5.wf() && c5@ == 2772189387845778213446441819361180378678387127454165972767013098872140927416nat) by (nonlinear_arith)
        requires
            c5.limbs@ == seq![0x6ea1d22532ef2471u64, 0x4e96177082af0ac7u64, 0xed2f1dfb1189f2bbu64, 0x27fbb36a7bd9b353u64],
    {
        reveal(modulus);
    }
    let c6 = element(0xa7ee25387ddb3c34, 0xf30145444d0fe612, 0x9c0473e043c5762b, 0x2bfa2b7461fc9c12);
    assert(c6.wf() && c6@ == 3339032002224218054945450150550795352855387702520990006196627537441898997147nat) by (nonlinear_arith)
        requires
            c6.limbs@ == seq![0xa7ee25387ddb3c34u64, 0xf30145444d0fe612u64, 0x9c0473e043c5762bu64, 0x2bfa2b7461fc9c12u64],
    {
        reveal(modulus);
    }
    let c7 = element(0xe74c0280a8d7a2d8, 0x15b2fc08d1baac9f, 0x7ef491cb5fda8359, 0x2622426d179ee045);
    assert(c7.wf() && c7@ == 14919705931281848425960108279746818433850049439186607267862213649460469542157nat) by (nonlinear_arith)
        requires
            c7.limbs@ == seq![0xe74c0280a8d7a2d8u64, 0x15b2fc08d1baac9fu64, 0x7ef491cb5fda8359u64, 0x2622426d179ee045u64],
    {
        reveal(modulus);
    }
    let r = [
        c0, c1, c2, c3, c4, c5, c6, c7,
    ];
    assert(values(r@) =~= rc_internal_2());
    r
}

fn internal_block_3() -> (r: [Fq; 8])
    ensures
        all_wf(r@),
        values(r@) == rc_internal_3(),
{
    let c0 = element(0xfeea8798b783f986, 0x21f8b55837df791c, 0x4715c04841f1f926, 0x100ebb18ec5c3f93);
    assert(c0.wf() && c0@ == 17056699976793486403099510941807022658662936611123286147276760381688934087770nat) by (nonlinear_arith)
        requires
            c0.limbs@ == seq![0xfeea8798b783f986u64, 0x21f8b55837df791cu64, 0x4715c04841f1f926u64, 0x100ebb18ec5c3f93u64],
    {
        reveal(modulus);
    }
    let c1 = element(0x122aa722f6947206, 0x522b121946ac0fee, 0x45b9250f69dac1c0, 0x25293cd27572f636);
    assert(c1.wf() && c1@ == 16144580075268719403964467603213740327573316872987042261854346306108421013323nat) by (nonlinear_arith)
        requires
            c1.limbs@ == seq![0x122aa722f6947206u64, 0x522b121946ac0feeu64, 0x45b9250f69dac1c0u64, 0x25293cd27572f636u64],
    {
        reveal(modulus);
    }
    let c2 = element(0x936f54ff136b08ab, 0x700dd002430020cc, 0xd06242f794739877, 0x2268c9c162417cab);
    assert(c2.wf() && c2@ == 15582343953927413680541644067712456296539774919658221087452235772880573393376nat) by (nonlinear_arith)
        requires
            c2.limbs@ == seq![0x936f54ff136b08abu64, 0x700dd002430020ccu64, 0xd06242f794739877u64, 0x2268c9c162417cabu64],
    {
        reveal(modulus);
    }
    let c3 = element(0x1c9b445dd0a2241a, 0xc11cb47b21df29cd, 0xf7a492c3594f0f09, 0x034b38a7146edc66);
    assert(c3.wf() && c3@ == 17528510080741946423534916423363640132610906812668323263058626230135522155749nat) by (nonlinear_arith)
        requires
            c3.limbs@ == seq![0x1c9b445dd0a2241au64, 0xc11cb47b21df29cdu64, 0xf7a492c3594f0f09u64, 0x034b38a7146edc66u64],
    {
        reveal(modulus);
    }
    let c4 = element(0x1dfe4ac0183b8133, 0x1ef0319b13fb779a, 0x11dbf892ab5f926e, 0x17a856c53659a7ee);
    assert(c4.wf() && c4@ == 3190600034239022251529646836642735752388641846393941612827022280601486805721nat) by (nonlinear_arith)
        requires
            c4.limbs@ == seq![0x1dfe4ac0183b8133u64, 0x1ef0319b13fb779au64, 0x11dbf892ab5f926eu64, 0x17a856c53659a7eeu64],
    {
        reveal(modulus);
    }
    let c5 = element(0x059e222bcd5307a6, 0xccfaf000d2effb7c, 0x1fd59fef9a8cf932, 0x0c4ce24e93909eae);
    assert(c5.wf() && c5@ == 8463814172152682468446984305780323150741498069701538916468821815030498611418nat) by (nonlinear_arith)
        requires
            c5.limbs@ == seq![0x059e222bcd5307a6u64, 0xccfaf000d2effb7cu64, 0x1fd59fef9a8cf932u64, 0x0c4ce24e93909eaeu64],
    {
        reveal(modulus);
    }
    let c6 = element(0x42d0cafee2301d0e, 0x79696ca22bdcb93f, 0x5bacb0d63592018b, 0x29294687e7715542);
    assert(c6.wf() && c6@ == 16533435971270903741871235576178437313873873358463959658178441562520661055273nat) by (nonlinear_arith)
        requires
            c6.limbs@ == seq![0x42d0cafee2301d0eu64, 0x79696ca22bdcb93fu64, 0x5bacb0d63592018bu64, 0x29294687e7715542u64],
    {
        reveal(modulus);
    }
    let c7 = element(0x42a5414804c7099b, 0x6fe76c6243e5c38a, 0x254493c8af4e6367, 0x1e3fcd8156bc983d);
    assert(c7.wf() && c7@ == 11845696835505436397913764735273748291716405946246049903478361223369666046634nat) by (nonlinear_arith)
        requires
            c7.limbs@ == seq![0x42a5414804c7099bu64, 0x6fe76c6243e5c38au64, 0x254493c8af4e6367u64, 0x1e3fcd8156bc983du64],
    {
        reveal(modulus);
    }
    let r = [
        c0, c1, c2, c3, c4, c5, c6, c7,
    ];
    assert(values(r@) =~= rc_internal_3());
    r
}

fn internal_block_4() -> (r: [Fq; 8])
    ensures
        all_wf(r@),
        values(r@) == rc_internal_4(),
{
    let c0 = element(0xa7ff7255f2412486, 0x7501ca14401795c0, 0x2d0e3a0db6e4b1ff, 0x0096d162a3cc320f);
    assert(c0.wf() && c0@ == 18391057370973634202531308463652130631065370546571735004701144829951670507215nat) by (nonlinear_arith)
        requires
            c0.limbs@ == seq![0xa7ff7255f2412486u64, 0x7501ca14401795c0u64, 0x2d0e3a0db6e4b1ffu64, 0x0096d162a3cc320fu64],
    {
        reveal(modulus);
    }
    let c1 = element(0x789c20e48b1125f9, 0x528ce70d5612a45c, 0x8d645f61a75e2b38, 0x26549dc15b1fa715);
    assert(c1.wf() && c1@ == 262537877325812689820791215463881982531707709719292538608229687240243203710nat) by (nonlinear_arith)
        requires
            c1.limbs@ == seq![0x789c20e48b1125f9u64, 0x528ce70d5612a45cu64, 0x8d645f61a75e2b38u64, 0x26549dc15b1fa715u64],
    {
        reveal(modulus);
    }
    let c2 = element(0x775b5e0fba5758e9, 0xd39a069c41c98c95, 0x68a784316ed9fd47, 0x2dd54f4070bcfbe6);
    assert(c2.wf() && c2@ == 2187234489894387585309965540987639130975753519805550941279098789852422770021nat) by (nonlinear_arith)
        requires
            c2.limbs@ == seq![0x775b5e0fba5758e9u64, 0xd39a069c41c98c95u64, 0x68a784316ed9fd47u64, 0x2dd54f4070bcfbe6u64],
    {
        reveal(modulus);
    }
    let c3 = element(0x9d57dffcd1ba98ba, 0x2554bc6bf0d32b4f, 0xfaa1a29bff5eaacc, 0x1bf848fcc8ea6c31);
    assert(c3.wf() && c3@ == 19189656350920455659006418422409390013967064310525314160026356916172976152967nat) by (nonlinear_arith)
        requires
            c3.limbs@ == seq![0x9d57dffcd1ba98bau64, 0x2554bc6bf0d32b4fu64, 0xfaa1a29bff5eaaccu64, 0x1bf848fcc8ea6c31u64],
    {
        reveal(modulus);
    }
    let c4 = element(0x3264c88684b1bcb6, 0xb5e9ff4335f99477, 0x81aca7593bdc6348, 0x1a6338f428a0b816);
    assert(c4.wf() && c4@ == 15839474183930359560478122372067744245080413846070743460407578046890458719219nat) by (nonlinear_arith)
        requires
            c4.limbs@ == seq![0x3264c88684b1bcb6u64, 0xb5e9ff4335f99477u64, 0x81aca7593bdc6348u64, 0x1a6338f428a0b816u64],
    {
        reveal(modulus);
    }
    let c5 = element(0x24779cc69cba1dea, 0x308776f8218f1be6, 0x3a9e52d12b3f619e, 0x06d8d604ce3e2de3);
    assert(c5.wf() && c5@ == 1805019124769763805045852541831585930225376844141668951787801647576910524592nat) by (nonlinear_arith)
        requires
            c5.limbs@ == seq![0x24779cc69cba1deau64, 0x308776f8218f1be6u64, 0x3a9e52d12b3f619eu64, 0x06d8d604ce3e2de3u64],
    {
        reveal(modulus);
    }
    let c6 = element(0xc7b00cf37e64dc49, 0x06d1c1802949bc23, 0xfd608a1fa1b25168, 0x22ebae49ba188f7a);
    assert(c6.wf() && c6@ == 323592203814803486950280155834638828455175703393817797003361354810251742052nat) by (nonlinear_arith)
        requires
            c6.limbs@ == seq![0xc7b00cf37e64dc49u64, 0x06d1c1802949bc23u64, 0xfd608a1fa1b25168u64, 0x22ebae49ba188f7au64],
    {
        reveal(modulus);
    }
    let c7 = element(0xca1469d4458d8a3d, 0x7623fb53afb084b6, 0xa0abc7e8d556d8f0, 0x2a8b5c3b5f3dfadf);
    assert(c7.wf() && c7@ == 9780393509796825017346015868945480913627956475147371732521398519483580624282nat) by (nonlinear_arith)
        requires
            c7.limbs@ == seq![0xca1469d4458d8a3du64, 0x7623fb53afb084b6u64, 0xa0abc7e8d556d8f0u64, 0x2a8b5c3b5f3dfadfu64],
    {
        reveal(modulus);
    }
    let r = [
        c0, c1, c2, c3, c4, c5, c6, c7,
    ];
    assert(values(r@) =~= rc_internal_4());
    r
}

fn internal_block_5() -> (r: [Fq; 8])
    ensures
        all_wf(r@),
        values(r@) == rc_internal_5(),
{
    let c0 = element(0x33f5eadd9c1595c3, 0x54d6810e1d084193, 0xa13eb5c950c2db99, 0x1ac1693fb6209dfc);
    assert(c0.wf() && c0@ == 14009429785059642386335012561867511048847749030947687313594053997432177705759nat) by (nonlinear_arith)
        requires
            c0.limbs@ == seq![0x33f5eadd9c1595c3u64, 0x54d6810e1d084193u64, 0xa13eb5c950c2db99u64, 0x1ac1693fb6209dfcu64],
    {
        reveal(modulus);
    }
    let c1 = element(0x57b804a8493ffadb, 0xf4ecda7bda07b05e, 0x365ad26d1dde9556, 0x26840fe4f165a935);
    assert(c1.wf() && c1@ == 13749550162460745037234826077137388777330401847577727796245150843898019635981nat) by (nonlinear_arith)
        requires
            c1.limbs@ == seq![0x57b804a8493ffadbu64, 0xf4ecda7bda07b05eu64, 0x365ad26d1dde9556u64, 0x26840fe4f165a935u64],
    {
        reveal(modulus);
    }
    let c2 = element(0xcb958721444341c1, 0xd202fc009bbb1137, 0xe10a117befbfbaef, 0x2fefe67ccff0718b);
    assert(c2.wf() && c2@ == 19497187499283431845443758879472819384797584633472792651343926414232528405311nat) by (nonlinear_arith)
        requires
            c2.limbs@ == seq![0xcb958721444341c1u64, 0xd202fc009bbb1137u64, 0xe10a117befbfbaefu64, 0x2fefe67ccff0718bu64],
    {
        reveal(modulus);
    }
    let c3 = element(0x57166a5f56a5da25, 0x9651ac4d559f2de5, 0xe0a3ce57440d7536, 0x1d7d8da39c2e8df9);
    assert(c3.wf() && c3@ == 3708428802547661961864524194762556064568867603968214870300574294082023305587nat) by (nonlinear_arith)
        requires
            c3.limbs@ == seq![0x57166a5f56a5da25u64, 0x9651ac4d559f2de5u64, 0xe0a3ce57440d7536u64, 0x1d7d8da39c2e8df9u64],
    {
        reveal(modulus);
    }
    let c4 = element(0x955694cf7e751759, 0x1f19c299b2bf9669, 0x891a562d7d697b72, 0x25b1eb3a2c62c131);
    assert(c4.wf() && c4@ == 1339414413482882567499652761996854155383863472782829777976929310155400981782nat) by (nonlinear_arith)
        requires
            c4.limbs@ == seq![0x955694cf7e751759u64, 0x1f19c299b2bf9669u64, 0x891a562d7d697b72u64, 0x25b1eb3a2c62c131u64],
    {
        reveal(modulus);
    }
    let c5 = element(0x27d15e03d244680e, 0x52a139938503b16b, 0xa60293987e1780d7, 0x27bdf8da7f79736c);
    assert(c5.wf() && c5@ == 6396261245879814100794661157306877072718690153118140891315137894471052482309nat) by (nonlinear_arith)
        requires
            c5.limbs@ == seq![0x27d15e03d244680eu64, 0x52a139938503b16bu64, 0xa60293987e1780d7u64, 0x27bdf8da7f79736cu64],
    {
        reveal(modulus);
    }
    let c6 = element(0x116f555634550fcd, 0x3df9127a2fff7266, 0xf3cd0bf9d381aa33, 0x16c19d6f034f31b9);
    assert(c6.wf() && c6@ == 2069661495404347929962833138824526893650803079024564477269192079629046031674nat) by (nonlinear_arith)
        requires
            c6.limbs@ == seq![0x116f555634550fcdu64, 0x3df9127a2fff7266u64, 0xf3cd0bf9d381aa33u64, 0x16c19d6f034f31b9u64],
    {
        reveal(modulus);
    }
    let c7 = element(0x66d80999699047ae, 0xd3be6bda729fbceb, 0xcfabbd2afaf882be, 0x05b5d05f43fd6e3f);
    assert(c7.wf() && c7@ == 15793521554502133342917616035884588152451122589545915605459159078589855944361nat) by (nonlinear_arith)
        requires
            c7.limbs@ == seq![0x66d80999699047aeu64, 0xd3be6bda729fbcebu64, 0xcfabbd2afaf882beu64, 0x05b5d05f43fd6e3fu64],
    {
        reveal(modulus);
    }
    let r = [
        c0, c1, c2, c3, c4, c5, c6, c7,
    ];
    assert(values(r@) =~= rc_internal_5());
    r
}

fn internal_block_6() -> (r: [Fq; 8])
    ensures
        all_wf(r@),
        values(r@) == rc_internal_6(),
{
    let c0 = element(0x2c74114e481ddafa, 0x807434126e9f472b, 0xab570928cd20418a, 0x283d4a89a200a5af);
    assert(c0.wf() && c0@ == 17053424498357819626596285492499512504457128907932827007302385782133229252374nat) by (nonlinear_arith)
        requires
            c0.limbs@ == seq![0x2c74114e481ddafau64, 0x807434126e9f472bu64, 0xab570928cd20418au64, 0x283d4a89a200a5afu64],
    {
        reveal(modulus);
    }
    let c1 = element(0xd411d7242d41f6b9, 0x2633b38dce58b2a3, 0xb88e71e3b9f250f6, 0x1fd33b9c3927530c);
    assert(c1.wf() && c1@ == 13658536470391360399708067455536748955260723760813498481671323619545320978896nat) by (nonlinear_arith)
        requires
            c1.limbs@ == seq![0xd411d7242d41f6b9u64, 0x2633b38dce58b2a3u64, 0xb88e71e3b9f250f6u64, 0x1fd33b9c3927530cu64],
    {
        reveal(modulus);
    }
    let c2 = element(0x97b472e62acef0f6, 0x14790dc3fcd93bbc, 0x5400b0481e349424, 0x2ceaf69d01ac2e60);
    assert(c2.wf() && c2@ == 21546095668130239633971575351786704948662094117932406102037724221634677838565nat) by (nonlinear_arith)
        requires
            c2.limbs@ == seq![0x97b472e62acef0f6u64, 0x14790dc3fcd93bbcu64, 0x5400b0481e349424u64, 0x2ceaf69d01ac2e60u64],
    {
        reveal(modulus);
    }
    let c3 = element(0x668c4cd514449780, 0x43c5c8d06641b850, 0x4f75ba88b2b749e2, 0x267a187cac4732f2);
    assert(c3.wf() && c3@ == 21411726238386979516934941789127061362496195649331822900487557574597304399109nat) by (nonlinear_arith)
        requires
            c3.limbs@ == seq![0x668c4cd514449780u64, 0x43c5c8d06641b850u64, 0x4f75ba88b2b749e2u64, 0x267a187cac4732f2u64],
    {
        reveal(modulus);
    }
    let c4 = element(0xb085fdc4f9a8fb0b, 0x71be2e0129e44e36, 0xe6b0eeb850b499a4, 0x02b354c2103cddba);
    assert(c4.wf() && c4@ == 1944776378988765673004063363506638781964264107780425928778257145151172817981nat) by (nonlinear_arith)
        requires
            c4.limbs@ == seq![0xb085fdc4f9a8fb0bu64, 0x71be2e0129e44e36u64, 0xe6b0eeb850b499a4u64, 0x02b354c2103cddbau64],
    {
        reveal(modulus);
    }
    let c5 = element(0x0597e2d67467dcbf, 0xfb80c331cfc45fb9, 0xdac61e4a03d6a081, 0x1a11b729bcdb094a);
    assert(c5.wf() && c5@ == 15590719714223718537172639598316570285163081746016049278954513732528516468773nat) by (nonlinear_arith)
        requires
            c5.limbs@ == seq![0x0597e2d67467dcbfu64, 0xfb80c331cfc45fb9u64, 0xdac61e4a03d6a081u64, 0x1a11b729bcdb094au64],
    {
        reveal(modulus);
    }
    let c6 = element(0xf3fee4e36f25bfbd, 0x2e1ebc2bb09c65b3, 0xe2e0496cea732590, 0x0880a9b301012352);
    assert(c6.wf() && c6@ == 1351266421179051765004709939353170430290500926943038391678843253157009556309nat) by (nonlinear_arith)
        requires
            c6.limbs@ == seq![0xf3fee4e36f25bfbdu64, 0x2e1ebc2bb09c65b3u64, 0xe2e0496cea732590u64, 0x0880a9b301012352u64],
    {
        reveal(modulus);
    }
    let c7 = element(0x71df5a89af984d00, 0x7edb46887d56dd30, 0xec05215acaf42515, 0x18ff6fdc4fcf3d35);
    assert(c7.wf() && c7@ == 6772476224477167317130064764757502335545080109882028900432703947986275397548nat) by (nonlinear_arith)
        requires
            c7.limbs@ == seq![0x71df5a89af984d00u64, 0x7edb46887d56dd30u64, 0xec05215acaf42515u64, 0x18ff6fdc4fcf3d35u64],
    {
        reveal(modulus);
    }
    let r = [
        c0, c1, c2, c3, c4, c5, c6, c7,
    ];
    assert(values(r@) =~= rc_internal_6());
    r
}

fn internal_table() -> (r: [Fq; 56])
    ensures
        all_wf(r@),
        values(r@) == rc_internal(),
{
    let zero = Fq::zero();
    let mut r = [zero; 56];
    let b0 = internal_block_0();
    place_block(&mut r, &b0, 0);
    let b1 = internal_block_1();
    place_block(&mut r, &b1, 8);
    let b2 = internal_block_2();
    place_block(&mut r, &b2, 16);
    let b3 = internal_block_3();
    place_block(&mut r, &b3, 24);
    let b4 = internal_block_4();
    place_block(&mut r, &b4, 32);
    let b5 = internal_block_5();
    place_block(&mut r, &b5, 40);
    let b6 = internal_block_6();
    place_block(&mut r, &b6, 48);
    proof {
        assert forall|k: int| 0 <= k < 56 implies values(r@)[k] == rc_internal()[k] by {
            if 0 <= k < 8 {
                assert(r[0 + (k - 0)] == b0[k - 0]);
                assert(values(b0@)[k - 0] == rc_internal_0()[k - 0]);
            }
            if 8 <= k < 16 {
                assert(r[8 + (k - 8)] == b1[k - 8]);
                assert(values(b1@)[k - 8] == rc_internal_1()[k - 8]);
            }
            if 16 <= k < 24 {
                assert(r[16 + (k - 16)] == b2[k - 16]);
                assert(values(b2@)[k - 16] == rc_internal_2()[k - 16]);
            }
            if 24 <= k < 32 {
                assert(r[24 + (k - 24)] == b3[k - 24]);
                assert(values(b3@)[k - 24] == rc_internal_3()[k - 24]);
            }
            if 32 <= k < 40 {
                assert(r[32 + (k - 32)] == b4[k - 32]);
                assert(values(b4@)[k - 32] == rc_internal_4()[k - 32]);
            }
            if 40 <= k < 48 {
                assert(r[40 + (k - 40)] == b5[k - 40]);
                assert(values(b5@)[k - 40] == rc_internal_5()[k - 40]);
            }
            if 48 <= k < 56 {
                assert(r[48 + (k - 48)] == b6[k - 48]);
                assert(values(b6@)[k - 48] == rc_internal_6()[k - 48]);
            }
        }
        assert(values(r@) =~= rc_internal());
    }
    r
}

/// The instance with its tables.
pub fn instance() -> (p: Poseidon2Permutation<4, 5, 8, 56>)
    ensures
        p.wf(),
        p@ == parameters(),
        diagonal_fits_width(p@.diag_m1),
{
    let rows = [
        external_row_0(),
        external_row_1(),
        external_row_2(),
        external_row_3(),
        external_row_4(),
        external_row_5(),
        external_row_6(),
        external_row_7(),
    ];
    let made = Poseidon2Permutation::<4, 5, 8, 56>::new(diag_table(), rows, internal_table());
    match made {
        Ok(p) => {
            proof {
                assert(p@.rc_external =~= rc_external());
            }
            p
        },
        Err(_) => {
            proof {
                assert(valid_config(4, 5, 8));
            }
            vstd::pervasive::unreached()
        },
    }
}

/// The permutation of a state, which is left as it is.
pub fn permutation(input: &[Fq; 4]) -> (output: [Fq; 4])
    requires
        all_wf(input@),
    ensures
        all_wf(output@),
        values(output@) == permute(5, parameters(), values(input@)),
{
    instance().permutation(input)
}

/// The permutation, on the state in place.
pub fn permutation_in_place(state: &mut [Fq; 4])
    requires
        all_wf(old(state)@),
    ensures
        all_wf(final(state)@),
        values(final(state)@) == permute(5, parameters(), values(old(state)@)),
{
    instance().permutation_in_place(state)
}

} // verus!
